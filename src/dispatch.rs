//! The unified entry point: picks the family's engine from the extension.
use vstd::prelude::*;

use crate::detect::{Family, StyleSyntax};
use crate::error::{result_view, ErrorView, FormatError};
use crate::graphql::GraphqlConfig;
use crate::json::JsonConfig;
use crate::layout::LayoutConfig;
use crate::markup::{EmbeddedConfig, MarkupConfig};
use crate::script::BiomeConfig;
use crate::style::{AttrContext, MalvaConfig};

verus! {

/// Settings for every family, and the layout keys shared by all of them.
pub struct Config {
    pub global: LayoutConfig,
    pub markup: MarkupConfig,
    pub script: BiomeConfig,
    pub style: MalvaConfig,
    pub json: JsonConfig,
    pub graphql: GraphqlConfig,
}

impl Config {
    /// What formatting `src`, a file named `filename`, gives: the engine of
    /// the extension's family, with that family's settings over the shared
    /// ones; an extension of no family is rejected.
    pub open spec fn spec_format(self, src: Seq<char>, filename: Seq<char>) -> Result<
        Seq<char>,
        ErrorView,
    > {
        match Family::spec_of_filename(filename) {
            None => Err(ErrorView::UnsupportedExtension { filename }),
            Some(Family::Script) => self.script.spec_format(src, filename, self.global, None),
            Some(Family::Style) => self.style.spec_format(
                src,
                StyleSyntax::spec_detect(filename),
                self.global,
                None,
                AttrContext::none(),
            ),
            Some(Family::Markup) => self.markup.spec_format(
                src,
                filename,
                EmbeddedConfig {
                    global: self.global,
                    style: self.style,
                    script: self.script,
                    json: self.json,
                    graphql: self.graphql,
                },
            ),
            Some(Family::Json) => self.json.spec_format(src, self.global, None),
            Some(Family::Graphql) => self.graphql.spec_format(src, self.global, None),
        }
    }
}

/// The engine used is the one of the extension's family, and only an
/// extension of no family is rejected as unsupported.
pub proof fn dispatch_selects_family(config: Config, src: Seq<char>, filename: Seq<char>)
    ensures
        Family::spec_of_filename(filename) is None <==> config.spec_format(src, filename)
            == Err::<Seq<char>, ErrorView>(ErrorView::UnsupportedExtension { filename }),
        Family::spec_of_filename(filename) == Some(Family::Script) ==> config.spec_format(
            src,
            filename,
        ) == config.script.spec_format(src, filename, config.global, None),
        Family::spec_of_filename(filename) == Some(Family::Style) ==> config.spec_format(
            src,
            filename,
        ) == config.style.spec_format(
            src,
            StyleSyntax::spec_detect(filename),
            config.global,
            None,
            AttrContext::none(),
        ),
        Family::spec_of_filename(filename) == Some(Family::Json) ==> config.spec_format(
            src,
            filename,
        ) == config.json.spec_format(src, config.global, None),
        Family::spec_of_filename(filename) == Some(Family::Graphql) ==> config.spec_format(
            src,
            filename,
        ) == config.graphql.spec_format(src, config.global, None),
{
}

/// Formats `src`, a file named `filename`, with the engine of its family.
pub fn format(src: &str, filename: &str, config: Config) -> (r: Result<String, FormatError>)
    ensures
        result_view(r) == config.spec_format(src@, filename@),
{
    match Family::of_filename(filename) {
        None => Err(FormatError::UnsupportedExtension { filename: String::from_str(filename) }),
        Some(Family::Script) => config.script.format_with(src, filename, &config.global, None),
        Some(Family::Style) => config.style.format_with(
            src,
            StyleSyntax::detect(filename),
            &config.global,
            None,
            AttrContext { inside_attr: false, host_double_quotes: false },
        ),
        Some(Family::Markup) => {
            let Config { global, markup, script, style, json, graphql } = config;
            crate::markup::format_markup_with_config(
                src,
                filename,
                markup,
                EmbeddedConfig { global, style, script, json, graphql },
            )
        },
        Some(Family::Json) => config.json.format_with(src, &config.global, None),
        Some(Family::Graphql) => config.graphql.format_with(src, &config.global, None),
    }
}

} // verus!
