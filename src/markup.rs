//! The markup family (HTML, Vue, Svelte, Astro, Jinja), formatted by
//! markup_fmt, which hands each embedded region back to this crate.
use vstd::prelude::*;

use markup_fmt::config::LanguageOptions as MarkupLanguageOptions;

use crate::detect::{Family, MarkupLanguage, StyleSyntax};
use crate::error::{engine_outcome, from_engine, result_view, text_result, ErrorView, FormatError};
use crate::graphql::GraphqlConfig;
use crate::json::JsonConfig;
use crate::layout::{LayoutConfig, LineEnding};
use crate::resolve::{EngineLayout, LayoutLayers, ResolvedLayout};
use crate::script::BiomeConfig;
use crate::style::{AttrContext, MalvaConfig};

verus! {

#[verifier::external_type_specification]
pub struct ExMarkupLanguage(markup_fmt::Language);

#[verifier::external_type_specification]
pub struct ExMarkupQuotes(markup_fmt::config::Quotes);

#[verifier::external_type_specification]
pub struct ExMarkupLineBreak(markup_fmt::config::LineBreak);

#[verifier::external_type_specification]
pub struct ExMarkupLayoutOptions(markup_fmt::config::LayoutOptions);

#[verifier::external_type_specification]
#[verifier::external_body]
pub struct ExMarkupLanguageOptions(MarkupLanguageOptions);

/// Markup settings: shared layout keys, markup_fmt's own layout keys, the
/// quote style, and markup_fmt's other language options. The quote style is
/// held apart from `language`, whose value for it is not used, because the
/// regions embedded in attributes depend on it.
pub struct MarkupConfig {
    pub layout: LayoutConfig,
    pub markup_layout: EngineLayout,
    pub quotes: markup_fmt::config::Quotes,
    pub language: MarkupLanguageOptions,
}

/// The settings handed to markup_fmt for one call, besides its language options.
pub struct MarkupOptions {
    pub language: markup_fmt::Language,
    pub layout: markup_fmt::config::LayoutOptions,
    pub quotes: markup_fmt::config::Quotes,
}

/// Settings for the regions that a markup document embeds.
pub struct EmbeddedConfig {
    pub global: LayoutConfig,
    pub style: MalvaConfig,
    pub script: BiomeConfig,
    pub json: JsonConfig,
    pub graphql: GraphqlConfig,
}

/// What markup_fmt's `format_text` returns when each embedded region is
/// formatted by `EmbeddedConfig::format_region`.
pub uninterp spec fn markup_output(
    src: Seq<char>,
    options: MarkupOptions,
    rest: MarkupLanguageOptions,
    embedded: EmbeddedConfig,
    host_double_quotes: bool,
) -> Result<Seq<char>, Seq<char>>;

/// Relies on `markup_fmt::format_text`: it formats `src`, calls back for
/// each embedded region, and fails when a call back fails. The call backs
/// depend on their arguments alone, so the result depends on these alone.
#[verifier::external_body]
fn run_markup_fmt(
    src: &str,
    options: &MarkupOptions,
    rest: &MarkupLanguageOptions,
    embedded: &EmbeddedConfig,
    host_double_quotes: bool,
) -> (r: Result<String, String>)
    ensures
        text_result(r) == markup_output(src@, *options, *rest, *embedded, host_double_quotes),
{
    let language = MarkupLanguageOptions { quotes: options.quotes, ..rest.clone() };
    let format_options = markup_fmt::config::FormatOptions { layout: options.layout.clone(), language };
    markup_fmt::format_text(src, options.language, &format_options, |code, hints| {
        embedded.format_region(code, hints.ext, hints.print_width, hints.attr, host_double_quotes).map(
            std::borrow::Cow::Owned,
        ).map_err(|e| std::io::Error::other(format!("{e:?}")).into())
    }).map_err(|e| e.to_string())
}

/// markup_fmt's default layout.
pub open spec fn markup_baseline() -> ResolvedLayout {
    ResolvedLayout { print_width: 80, use_tabs: false, indent_width: 2, line_break: LineEnding::Lf }
}

pub open spec fn spec_markup_layout(l: ResolvedLayout) -> markup_fmt::config::LayoutOptions {
    markup_fmt::config::LayoutOptions {
        print_width: l.print_width,
        use_tabs: l.use_tabs,
        indent_width: l.indent_width,
        line_break: match l.line_break {
            LineEnding::Lf => markup_fmt::config::LineBreak::Lf,
            LineEnding::Crlf => markup_fmt::config::LineBreak::Crlf,
        },
    }
}

pub open spec fn spec_markup_language(l: MarkupLanguage) -> markup_fmt::Language {
    match l {
        MarkupLanguage::Html => markup_fmt::Language::Html,
        MarkupLanguage::Vue => markup_fmt::Language::Vue,
        MarkupLanguage::Svelte => markup_fmt::Language::Svelte,
        MarkupLanguage::Astro => markup_fmt::Language::Astro,
        MarkupLanguage::Jinja => markup_fmt::Language::Jinja,
    }
}

/// The name of a script region with extension `ext`, for dialect detection.
pub open spec fn region_name(ext: Seq<char>) -> Seq<char> {
    seq!['.'] + ext
}

impl EmbeddedConfig {
    /// What formatting one embedded region gives: the family of its extension
    /// formats it at the width the host leaves; a region of no family, or of
    /// the markup family, is kept as it is.
    pub open spec fn spec_format_region(
        self,
        code: Seq<char>,
        ext: Seq<char>,
        print_width: usize,
        attr: AttrContext,
    ) -> Result<Seq<char>, ErrorView> {
        match Family::spec_of_extension(ext, false) {
            Some(Family::Script) => self.script.spec_format(
                code,
                region_name(ext),
                self.global,
                Some(print_width),
            ),
            Some(Family::Style) => self.style.spec_format(
                code,
                StyleSyntax::spec_of_extension(ext),
                self.global,
                Some(print_width),
                attr,
            ),
            Some(Family::Json) => self.json.spec_format(code, self.global, Some(print_width)),
            Some(Family::Graphql) => self.graphql.spec_format(code, self.global, Some(print_width)),
            _ => Ok(code),
        }
    }

    /// Formats one embedded region for the host engine.
    pub fn format_region(
        &self,
        code: &str,
        ext: &str,
        print_width: usize,
        inside_attr: bool,
        host_double_quotes: bool,
    ) -> (r: Result<String, FormatError>)
        ensures
            result_view(r) == self.spec_format_region(
                code@,
                ext@,
                print_width,
                AttrContext { inside_attr, host_double_quotes },
            ),
    {
        match Family::of_extension(ext, false) {
            Some(Family::Script) => {
                let name = String::from_str(".").concat(ext);
                proof {
                    reveal_strlit(".");
                    assert(name@ =~= region_name(ext@));
                }
                self.script.format_with(code, name.as_str(), &self.global, Some(print_width))
            },
            Some(Family::Style) => self.style.format_with(
                code,
                StyleSyntax::of_extension(ext),
                &self.global,
                Some(print_width),
                AttrContext { inside_attr, host_double_quotes },
            ),
            Some(Family::Json) => self.json.format_with(code, &self.global, Some(print_width)),
            Some(Family::Graphql) => self.graphql.format_with(code, &self.global, Some(print_width)),
            _ => Ok(String::from_str(code)),
        }
    }
}

/// When the engine of an embedded region's family fails, formatting the
/// region fails with that same error: no failure is turned into unchanged text.
pub proof fn embedded_failure_propagates(
    embedded: EmbeddedConfig,
    code: Seq<char>,
    ext: Seq<char>,
    print_width: usize,
    attr: AttrContext,
)
    ensures
        Family::spec_of_extension(ext, false) == Some(Family::Style) && embedded.style.spec_format(
            code,
            StyleSyntax::spec_of_extension(ext),
            embedded.global,
            Some(print_width),
            attr,
        ) is Err ==> embedded.spec_format_region(code, ext, print_width, attr)
            == embedded.style.spec_format(
            code,
            StyleSyntax::spec_of_extension(ext),
            embedded.global,
            Some(print_width),
            attr,
        ),
        Family::spec_of_extension(ext, false) == Some(Family::Script) && embedded.script.spec_format(
            code,
            region_name(ext),
            embedded.global,
            Some(print_width),
        ) is Err ==> embedded.spec_format_region(code, ext, print_width, attr)
            == embedded.script.spec_format(code, region_name(ext), embedded.global, Some(print_width)),
        Family::spec_of_extension(ext, false) == Some(Family::Json) && embedded.json.spec_format(
            code,
            embedded.global,
            Some(print_width),
        ) is Err ==> embedded.spec_format_region(code, ext, print_width, attr)
            == embedded.json.spec_format(code, embedded.global, Some(print_width)),
{
}

/// A region of no known family passes through unchanged, so formatting the
/// output again gives the same text.
pub proof fn pass_through_idempotent(
    embedded: EmbeddedConfig,
    code: Seq<char>,
    ext: Seq<char>,
    print_width: usize,
    attr: AttrContext,
)
    requires
        Family::spec_of_extension(ext, false) is None,
    ensures
        embedded.spec_format_region(code, ext, print_width, attr) == Ok::<Seq<char>, ErrorView>(code),
        embedded.spec_format_region(
            embedded.spec_format_region(code, ext, print_width, attr)->Ok_0,
            ext,
            print_width,
            attr,
        ) == embedded.spec_format_region(code, ext, print_width, attr),
{
}

impl MarkupConfig {
    pub open spec fn layers(self, global: LayoutConfig) -> LayoutLayers {
        LayoutLayers {
            per_call: self.markup_layout,
            per_language: self.layout,
            global,
            baseline: markup_baseline(),
        }
    }

    pub open spec fn spec_options(self, language: MarkupLanguage, global: LayoutConfig) -> MarkupOptions {
        MarkupOptions {
            language: spec_markup_language(language),
            layout: spec_markup_layout(self.layers(global).spec_resolve()),
            quotes: self.quotes,
        }
    }

    /// What formatting `src`, a document named `filename`, gives.
    pub open spec fn spec_format(
        self,
        src: Seq<char>,
        filename: Seq<char>,
        embedded: EmbeddedConfig,
    ) -> Result<Seq<char>, ErrorView> {
        engine_outcome(
            markup_output(
                src,
                self.spec_options(MarkupLanguage::spec_detect(filename), embedded.global),
                self.language,
                embedded,
                self.quotes == markup_fmt::config::Quotes::Double,
            ),
        )
    }

    pub fn options(&self, language: MarkupLanguage, global: &LayoutConfig) -> (r: MarkupOptions)
        ensures
            r == self.spec_options(language, *global),
    {
        let layers = LayoutLayers {
            per_call: self.markup_layout,
            per_language: self.layout,
            global: *global,
            baseline: ResolvedLayout {
                print_width: 80,
                use_tabs: false,
                indent_width: 2,
                line_break: LineEnding::Lf,
            },
        };
        let l = layers.resolve();
        MarkupOptions {
            language: match language {
                MarkupLanguage::Html => markup_fmt::Language::Html,
                MarkupLanguage::Vue => markup_fmt::Language::Vue,
                MarkupLanguage::Svelte => markup_fmt::Language::Svelte,
                MarkupLanguage::Astro => markup_fmt::Language::Astro,
                MarkupLanguage::Jinja => markup_fmt::Language::Jinja,
            },
            layout: markup_fmt::config::LayoutOptions {
                print_width: l.print_width,
                use_tabs: l.use_tabs,
                indent_width: l.indent_width,
                line_break: match l.line_break {
                    LineEnding::Lf => markup_fmt::config::LineBreak::Lf,
                    LineEnding::Crlf => markup_fmt::config::LineBreak::Crlf,
                },
            },
            quotes: self.quotes,
        }
    }

    pub fn quotes(&self) -> (r: markup_fmt::config::Quotes)
        ensures
            r == self.quotes,
    {
        self.quotes
    }

    pub fn with_line_width(self, line_width: u16) -> (r: Self)
        ensures
            r.markup_layout == (EngineLayout { print_width: Some(line_width as usize), ..self.markup_layout }),
            r.layout == self.layout,
            r.quotes == self.quotes,
            r.language == self.language,
    {
        MarkupConfig { markup_layout: self.markup_layout.with_print_width(line_width as usize), ..self }
    }

    pub fn fill_empty_layout_with(self, layout: &LayoutConfig) -> (r: Self)
        ensures
            r.layout == self.layout.overlay(*layout),
            r.markup_layout == self.markup_layout,
            r.quotes == self.quotes,
            r.language == self.language,
    {
        MarkupConfig { layout: self.layout.fill_empty_with(layout), ..self }
    }
}

/// Formats `src`, a markup document named `filename`: the dialect comes from
/// the extension (HTML when unrecognised), and each embedded region is
/// formatted with the settings of its own family.
pub fn format_markup_with_config(
    src: &str,
    filename: &str,
    config: MarkupConfig,
    embedded: EmbeddedConfig,
) -> (r: Result<String, FormatError>)
    ensures
        result_view(r) == config.spec_format(src@, filename@, embedded),
{
    let options = config.options(MarkupLanguage::detect(filename), &embedded.global);
    let host_double_quotes = matches!(config.quotes, markup_fmt::config::Quotes::Double);
    from_engine(run_markup_fmt(src, &options, &config.language, &embedded, host_double_quotes))
}

} // verus!
