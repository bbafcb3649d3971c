//! The GraphQL family, formatted by pretty_graphql.
use vstd::prelude::*;

use pretty_graphql::config::LanguageOptions as GraphqlLanguageOptions;

use crate::error::{engine_outcome, from_engine, result_view, text_result, ErrorView, FormatError};
use crate::layout::{LayoutConfig, LineEnding};
use crate::resolve::{EngineLayout, LayoutLayers, ResolvedLayout};

verus! {

#[verifier::external_type_specification]
pub struct ExGraphqlLineBreak(pretty_graphql::config::LineBreak);

#[verifier::external_type_specification]
pub struct ExGraphqlLayoutOptions(pretty_graphql::config::LayoutOptions);

#[verifier::external_type_specification]
#[verifier::external_body]
pub struct ExGraphqlLanguageOptions(GraphqlLanguageOptions);

/// What pretty_graphql's `format_text` returns for a source text and options.
pub uninterp spec fn graphql_output(
    src: Seq<char>,
    layout: pretty_graphql::config::LayoutOptions,
    rest: GraphqlLanguageOptions,
) -> Result<Seq<char>, Seq<char>>;

/// Relies on `pretty_graphql::format_text`: formats `src` with the given
/// layout and language options; its result depends on them alone.
#[verifier::external_body]
fn run_pretty_graphql(
    src: &str,
    layout: &pretty_graphql::config::LayoutOptions,
    rest: &GraphqlLanguageOptions,
) -> (r: Result<String, String>)
    ensures
        text_result(r) == graphql_output(src@, *layout, *rest),
{
    let options = pretty_graphql::config::FormatOptions { layout: layout.clone(), language: rest.clone() };
    pretty_graphql::format_text(src, &options).map_err(|e| e.to_string())
}

/// GraphQL settings: shared layout keys, pretty_graphql's own layout keys,
/// and its language options.
pub struct GraphqlConfig {
    pub layout: LayoutConfig,
    pub graphql_layout: EngineLayout,
    pub language: GraphqlLanguageOptions,
}

/// pretty_graphql's default layout.
pub open spec fn graphql_baseline() -> ResolvedLayout {
    ResolvedLayout { print_width: 80, use_tabs: false, indent_width: 2, line_break: LineEnding::Lf }
}

pub open spec fn spec_graphql_layout(l: ResolvedLayout) -> pretty_graphql::config::LayoutOptions {
    pretty_graphql::config::LayoutOptions {
        print_width: l.print_width,
        use_tabs: l.use_tabs,
        indent_width: l.indent_width,
        line_break: match l.line_break {
            LineEnding::Lf => pretty_graphql::config::LineBreak::Lf,
            LineEnding::Crlf => pretty_graphql::config::LineBreak::Crlf,
        },
    }
}

impl GraphqlConfig {
    pub open spec fn layers(self, global: LayoutConfig, print_width: Option<usize>) -> LayoutLayers {
        LayoutLayers {
            per_call: EngineLayout {
                print_width: crate::layout::first_set(print_width, self.graphql_layout.print_width),
                ..self.graphql_layout
            },
            per_language: self.layout,
            global,
            baseline: graphql_baseline(),
        }
    }

    /// What formatting `src` as GraphQL gives.
    pub open spec fn spec_format(self, src: Seq<char>, global: LayoutConfig, print_width: Option<usize>) -> Result<Seq<char>, ErrorView> {
        engine_outcome(
            graphql_output(
                src,
                spec_graphql_layout(self.layers(global, print_width).spec_resolve()),
                self.language,
            ),
        )
    }

    pub fn layout_options(&self, global: &LayoutConfig, print_width: Option<usize>) -> (r:
        pretty_graphql::config::LayoutOptions)
        ensures
            r == spec_graphql_layout(self.layers(*global, print_width).spec_resolve()),
    {
        let per_call = match print_width {
            Some(w) => self.graphql_layout.with_print_width(w),
            None => self.graphql_layout,
        };
        let layers = LayoutLayers {
            per_call,
            per_language: self.layout,
            global: *global,
            baseline: ResolvedLayout {
                print_width: 80,
                use_tabs: false,
                indent_width: 2,
                line_break: LineEnding::Lf,
            },
        };
        let l = layers.resolve();
        pretty_graphql::config::LayoutOptions {
            print_width: l.print_width,
            use_tabs: l.use_tabs,
            indent_width: l.indent_width,
            line_break: match l.line_break {
                LineEnding::Lf => pretty_graphql::config::LineBreak::Lf,
                LineEnding::Crlf => pretty_graphql::config::LineBreak::Crlf,
            },
        }
    }

    /// Formats `src` as GraphQL with a width for this call.
    pub fn format_with(&self, src: &str, global: &LayoutConfig, print_width: Option<usize>) -> (r:
        Result<String, FormatError>)
        ensures
            result_view(r) == self.spec_format(src@, *global, print_width),
    {
        let layout = self.layout_options(global, print_width);
        from_engine(run_pretty_graphql(src, &layout, &self.language))
    }

    pub fn with_print_width(self, print_width: usize) -> (r: Self)
        ensures
            r.graphql_layout == (EngineLayout { print_width: Some(print_width), ..self.graphql_layout }),
            r.layout == self.layout,
            r.language == self.language,
    {
        GraphqlConfig { graphql_layout: self.graphql_layout.with_print_width(print_width), ..self }
    }

    pub fn fill_empty_layout_with(self, layout: &LayoutConfig) -> (r: Self)
        ensures
            r.layout == self.layout.overlay(*layout),
            r.graphql_layout == self.graphql_layout,
            r.language == self.language,
    {
        GraphqlConfig { layout: self.layout.fill_empty_with(layout), ..self }
    }
}

/// Formats `src` as GraphQL: the layout comes from the configuration over
/// pretty_graphql's defaults.
pub fn format_graphql_with_config(src: &str, _filename: &str, config: GraphqlConfig) -> (r: Result<String, FormatError>)
    ensures
        result_view(r) == config.spec_format(src@, LayoutConfig::empty(), None),
{
    let global = LayoutConfig { indent_style: None, indent_width: None, line_width: None, line_ending: None };
    config.format_with(src, &global, None)
}

} // verus!
