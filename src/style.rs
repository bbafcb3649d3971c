//! The style sheet family (CSS, SCSS, Sass, Less), formatted by malva.
use vstd::prelude::*;

use malva::config::LanguageOptions as MalvaLanguageOptions;

use crate::detect::StyleSyntax;
use crate::error::{engine_outcome, from_engine, result_view, text_result, FormatError, ErrorView};
use crate::layout::{LayoutConfig, LineEnding};
use crate::resolve::{EngineLayout, LayoutLayers, ResolvedLayout};

verus! {

#[verifier::external_type_specification]
pub struct ExMalvaSyntax(malva::Syntax);

#[verifier::external_type_specification]
pub struct ExMalvaQuotes(malva::config::Quotes);

#[verifier::external_type_specification]
pub struct ExMalvaLineBreak(malva::config::LineBreak);

#[verifier::external_type_specification]
pub struct ExMalvaLayoutOptions(malva::config::LayoutOptions);

#[verifier::external_type_specification]
#[verifier::external_body]
pub struct ExMalvaLanguageOptions(MalvaLanguageOptions);

/// What malva's `format_text` returns for a source text and options.
pub uninterp spec fn malva_output(
    src: Seq<char>,
    options: StyleOptions,
    rest: MalvaLanguageOptions,
) -> Result<Seq<char>, Seq<char>>;

/// Relies on `malva::format_text`: formats `src` with the options that
/// `options` and `rest` make up; its result depends on them alone.
#[verifier::external_body]
fn run_malva(src: &str, options: &StyleOptions, rest: &MalvaLanguageOptions) -> (r:
    Result<String, String>)
    ensures
        text_result(r) == malva_output(src@, *options, *rest),
{
    let language = MalvaLanguageOptions {
        quotes: options.quotes.clone(),
        single_line_top_level_declarations: options.single_line_top_level_declarations,
        ..rest.clone()
    };
    let format_options = malva::config::FormatOptions { layout: options.layout.clone(), language };
    malva::format_text(src, options.syntax, &format_options).map_err(|e| e.to_string())
}

/// Style settings: shared layout keys, malva's own layout keys, and
/// malva's language options. The quote style and the single-line flag are
/// held apart from `language`, whose values for those two keys are not used,
/// because a region inside a markup attribute overrides them.
pub struct MalvaConfig {
    pub layout: LayoutConfig,
    pub malva_layout: EngineLayout,
    pub quotes: malva::config::Quotes,
    pub single_line_top_level_declarations: bool,
    pub language: MalvaLanguageOptions,
}

/// The settings handed to malva for one call, besides its language options.
pub struct StyleOptions {
    pub syntax: malva::Syntax,
    pub layout: malva::config::LayoutOptions,
    pub quotes: malva::config::Quotes,
    pub single_line_top_level_declarations: bool,
}

/// malva's default layout.
pub open spec fn style_baseline() -> ResolvedLayout {
    ResolvedLayout { print_width: 80, use_tabs: false, indent_width: 2, line_break: LineEnding::Lf }
}

pub open spec fn spec_malva_syntax(s: StyleSyntax) -> malva::Syntax {
    match s {
        StyleSyntax::Css => malva::Syntax::Css,
        StyleSyntax::Scss => malva::Syntax::Scss,
        StyleSyntax::Sass => malva::Syntax::Sass,
        StyleSyntax::Less => malva::Syntax::Less,
    }
}

pub open spec fn spec_malva_layout(l: ResolvedLayout) -> malva::config::LayoutOptions {
    malva::config::LayoutOptions {
        print_width: l.print_width,
        use_tabs: l.use_tabs,
        indent_width: l.indent_width,
        line_break: match l.line_break {
            LineEnding::Lf => malva::config::LineBreak::Lf,
            LineEnding::Crlf => malva::config::LineBreak::Crlf,
        },
    }
}

fn malva_syntax(s: StyleSyntax) -> (r: malva::Syntax)
    ensures
        r == spec_malva_syntax(s),
{
    match s {
        StyleSyntax::Css => malva::Syntax::Css,
        StyleSyntax::Scss => malva::Syntax::Scss,
        StyleSyntax::Sass => malva::Syntax::Sass,
        StyleSyntax::Less => malva::Syntax::Less,
    }
}

fn malva_layout(l: &ResolvedLayout) -> (r: malva::config::LayoutOptions)
    ensures
        r == spec_malva_layout(*l),
{
    malva::config::LayoutOptions {
        print_width: l.print_width,
        use_tabs: l.use_tabs,
        indent_width: l.indent_width,
        line_break: match l.line_break {
            LineEnding::Lf => malva::config::LineBreak::Lf,
            LineEnding::Crlf => malva::config::LineBreak::Crlf,
        },
    }
}

fn copy_quotes(q: &malva::config::Quotes) -> (r: malva::config::Quotes)
    ensures
        r == *q,
{
    match q {
        malva::config::Quotes::AlwaysDouble => malva::config::Quotes::AlwaysDouble,
        malva::config::Quotes::AlwaysSingle => malva::config::Quotes::AlwaysSingle,
        malva::config::Quotes::PreferDouble => malva::config::Quotes::PreferDouble,
        malva::config::Quotes::PreferSingle => malva::config::Quotes::PreferSingle,
    }
}

/// Where a style region sits inside a quoted markup attribute, and whether
/// that markup uses double quotes.
#[derive(Clone, Copy, Debug, PartialEq, Eq, Structural)]
pub struct AttrContext {
    pub inside_attr: bool,
    pub host_double_quotes: bool,
}

impl Default for AttrContext {
    fn default() -> (r: AttrContext)
        ensures
            r == AttrContext::none(),
    {
        AttrContext { inside_attr: false, host_double_quotes: false }
    }
}

impl AttrContext {
    pub open spec fn none() -> AttrContext {
        AttrContext { inside_attr: false, host_double_quotes: false }
    }
}

impl MalvaConfig {
    /// The layers of a style resolution; a width given for the call comes first.
    pub open spec fn layers(self, global: LayoutConfig, print_width: Option<usize>) -> LayoutLayers {
        LayoutLayers {
            per_call: EngineLayout {
                print_width: crate::layout::first_set(print_width, self.malva_layout.print_width),
                ..self.malva_layout
            },
            per_language: self.layout,
            global,
            baseline: style_baseline(),
        }
    }

    /// Resolved style settings. Inside a quoted attribute the quotes are the
    /// opposite of the host's and top-level declarations stay on one line.
    pub open spec fn spec_options(
        self,
        syntax: StyleSyntax,
        global: LayoutConfig,
        print_width: Option<usize>,
        attr: AttrContext,
    ) -> StyleOptions {
        StyleOptions {
            syntax: spec_malva_syntax(syntax),
            layout: spec_malva_layout(self.layers(global, print_width).spec_resolve()),
            quotes: if attr.inside_attr {
                if attr.host_double_quotes {
                    malva::config::Quotes::AlwaysSingle
                } else {
                    malva::config::Quotes::AlwaysDouble
                }
            } else {
                self.quotes
            },
            single_line_top_level_declarations: attr.inside_attr
                || self.single_line_top_level_declarations,
        }
    }

    /// What formatting `src` in the given dialect gives.
    pub open spec fn spec_format(
        self,
        src: Seq<char>,
        syntax: StyleSyntax,
        global: LayoutConfig,
        print_width: Option<usize>,
        attr: AttrContext,
    ) -> Result<Seq<char>, ErrorView> {
        engine_outcome(
            malva_output(
                src,
                self.spec_options(syntax, global, print_width, attr),
                self.language,
            ),
        )
    }

    pub fn options(
        &self,
        syntax: StyleSyntax,
        global: &LayoutConfig,
        print_width: Option<usize>,
        attr: AttrContext,
    ) -> (r: StyleOptions)
        ensures
            r == self.spec_options(syntax, *global, print_width, attr),
    {
        let per_call = match print_width {
            Some(w) => self.malva_layout.with_print_width(w),
            None => self.malva_layout,
        };
        let layers = LayoutLayers {
            per_call,
            per_language: self.layout,
            global: *global,
            baseline: ResolvedLayout {
                print_width: 80,
                use_tabs: false,
                indent_width: 2,
                line_break: LineEnding::Lf,
            },
        };
        let resolved = layers.resolve();
        let quotes = if attr.inside_attr {
            if attr.host_double_quotes {
                malva::config::Quotes::AlwaysSingle
            } else {
                malva::config::Quotes::AlwaysDouble
            }
        } else {
            copy_quotes(&self.quotes)
        };
        StyleOptions {
            syntax: malva_syntax(syntax),
            layout: malva_layout(&resolved),
            quotes,
            single_line_top_level_declarations: attr.inside_attr
                || self.single_line_top_level_declarations,
        }
    }

    /// Formats `src` in the given dialect, with a width for this call and the
    /// attribute context of an embedded region.
    pub fn format_with(
        &self,
        src: &str,
        syntax: StyleSyntax,
        global: &LayoutConfig,
        print_width: Option<usize>,
        attr: AttrContext,
    ) -> (r: Result<String, FormatError>)
        ensures
            result_view(r) == self.spec_format(src@, syntax, *global, print_width, attr),
    {
        let options = self.options(syntax, global, print_width, attr);
        from_engine(run_malva(src, &options, &self.language))
    }

    pub fn with_line_width(self, line_width: u16) -> (r: Self)
        ensures
            r.malva_layout == (EngineLayout { print_width: Some(line_width as usize), ..self.malva_layout }),
            r.layout == self.layout,
            r.quotes == self.quotes,
            r.single_line_top_level_declarations == self.single_line_top_level_declarations,
            r.language == self.language,
    {
        MalvaConfig {
            malva_layout: self.malva_layout.with_print_width(line_width as usize),
            ..self
        }
    }

    pub fn fill_empty_layout_with(self, layout: &LayoutConfig) -> (r: Self)
        ensures
            r.layout == self.layout.overlay(*layout),
            r.malva_layout == self.malva_layout,
            r.quotes == self.quotes,
            r.single_line_top_level_declarations == self.single_line_top_level_declarations,
            r.language == self.language,
    {
        MalvaConfig { layout: self.layout.fill_empty_with(layout), ..self }
    }
}

/// A style region inside a quoted markup attribute takes the quote opposite
/// to the host's (single inside double-quoted markup, double otherwise) and
/// keeps top-level declarations on one line, whatever its own settings say.
pub proof fn attribute_quote_inversion(
    config: MalvaConfig,
    syntax: StyleSyntax,
    global: LayoutConfig,
    print_width: Option<usize>,
    host_double_quotes: bool,
)
    ensures
        ({
            let o = config.spec_options(
                syntax,
                global,
                print_width,
                AttrContext { inside_attr: true, host_double_quotes },
            );
            &&& host_double_quotes ==> o.quotes == malva::config::Quotes::AlwaysSingle
            &&& !host_double_quotes ==> o.quotes == malva::config::Quotes::AlwaysDouble
            &&& o.single_line_top_level_declarations
        }),
{
}

/// Formats `src`, a style sheet named `filename`: the dialect comes from the
/// extension, the layout from the configuration over malva's defaults.
pub fn format_style_with_config(src: &str, filename: &str, config: MalvaConfig) -> (r: Result<
    String,
    FormatError,
>)
    ensures
        result_view(r) == config.spec_format(
            src@,
            StyleSyntax::spec_detect(filename@),
            LayoutConfig::empty(),
            None,
            AttrContext::none(),
        ),
{
    let global = LayoutConfig { indent_style: None, indent_width: None, line_width: None, line_ending: None };
    config.format_with(src, StyleSyntax::detect(filename), &global, None, AttrContext { inside_attr: false, host_double_quotes: false })
}

} // verus!
