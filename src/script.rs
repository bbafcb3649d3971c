//! The script family (JavaScript, TypeScript, JSX), formatted by biome.
use vstd::prelude::*;

use biome_formatter::{
    AttributePosition, IndentStyle as BiomeIndentStyle, LineEnding as BiomeLineEnding, QuoteStyle,
};
use biome_js_formatter::context::{
    ArrowParentheses, JsFormatOptions, QuoteProperties, Semicolons, TrailingComma,
};
use biome_js_syntax::file_source::{Language, LanguageVariant as JsVariant, ModuleKind as JsModuleKind};

use crate::detect::{LanguageVariant, ModuleKind, ScriptSource};
use crate::error::{
    engine_outcome, from_engine, outcome, result_view, text_result, ConfigField, ErrorView,
    FormatError,
};
use crate::layout::{LayoutConfig, LineEnding};
use crate::resolve::{EngineLayout, LayoutLayers, ResolvedLayout};
use crate::text::text_eq;

verus! {

#[verifier::external_type_specification]
pub struct ExBiomeIndentStyle(BiomeIndentStyle);

#[verifier::external_type_specification]
pub struct ExBiomeLineEnding(BiomeLineEnding);

#[verifier::external_type_specification]
pub struct ExQuoteStyle(QuoteStyle);

#[verifier::external_type_specification]
pub struct ExAttributePosition(AttributePosition);

#[verifier::external_type_specification]
pub struct ExQuoteProperties(QuoteProperties);

#[verifier::external_type_specification]
pub struct ExSemicolons(Semicolons);

#[verifier::external_type_specification]
pub struct ExArrowParentheses(ArrowParentheses);

#[verifier::external_type_specification]
pub struct ExTrailingComma(TrailingComma);

#[verifier::external_type_specification]
pub struct ExLanguage(Language);

#[verifier::external_type_specification]
pub struct ExJsModuleKind(JsModuleKind);

#[verifier::external_type_specification]
pub struct ExJsVariant(JsVariant);

#[verifier::external_type_specification]
#[verifier::external_body]
pub struct ExJsFormatOptions(JsFormatOptions);

/// Script settings as given: shared layout keys and biome's language keys,
/// whose values are checked when the settings are resolved.
pub struct BiomeConfig {
    pub layout: LayoutConfig,
    pub language: LanguageOptions,
}

/// biome's language keys, each optional.
pub struct LanguageOptions {
    pub quote_style: Option<String>,
    pub jsx_quote_style: Option<String>,
    pub quote_properties: Option<String>,
    pub trailing_comma: Option<String>,
    pub semicolons: Option<String>,
    pub arrow_parentheses: Option<String>,
    pub bracket_spacing: Option<bool>,
    pub bracket_same_line: Option<bool>,
    pub attribute_position: Option<String>,
}

impl Default for LanguageOptions {
    fn default() -> (r: LanguageOptions)
        ensures
            r.quote_style is None && r.jsx_quote_style is None && r.quote_properties is None
                && r.trailing_comma is None && r.semicolons is None && r.arrow_parentheses is None
                && r.bracket_spacing is None && r.bracket_same_line is None
                && r.attribute_position is None,
    {
        LanguageOptions {
            quote_style: None,
            jsx_quote_style: None,
            quote_properties: None,
            trailing_comma: None,
            semicolons: None,
            arrow_parentheses: None,
            bracket_spacing: None,
            bracket_same_line: None,
            attribute_position: None,
        }
    }
}

impl Default for BiomeConfig {
    fn default() -> (r: BiomeConfig)
        ensures
            r.layout == LayoutConfig::empty(),
            r.language.quote_style is None && r.language.jsx_quote_style is None
                && r.language.quote_properties is None && r.language.trailing_comma is None
                && r.language.semicolons is None && r.language.arrow_parentheses is None
                && r.language.bracket_spacing is None && r.language.bracket_same_line is None
                && r.language.attribute_position is None,
    {
        BiomeConfig { layout: LayoutConfig::default(), language: LanguageOptions::default() }
    }
}

/// Every setting of one biome call, decided.
#[derive(Clone, Copy)]
pub struct ScriptOptions {
    pub language: Language,
    pub module_kind: JsModuleKind,
    pub variant: JsVariant,
    pub indent_style: BiomeIndentStyle,
    pub indent_width: u8,
    pub line_ending: BiomeLineEnding,
    pub line_width: u16,
    pub quote_style: QuoteStyle,
    pub jsx_quote_style: QuoteStyle,
    pub quote_properties: QuoteProperties,
    pub trailing_comma: TrailingComma,
    pub semicolons: Semicolons,
    pub arrow_parentheses: ArrowParentheses,
    pub bracket_spacing: bool,
    pub bracket_same_line: bool,
    pub attribute_position: AttributePosition,
}

/// The options that `JsFormatOptions::new` and its setters build from `options`.
pub uninterp spec fn biome_js_options(options: ScriptOptions) -> JsFormatOptions;

/// Relies on biome's `JsFileSource` constructors, `JsFormatOptions::new` and
/// its `with_*` setters: each setting is copied into the options.
#[verifier::external_body]
fn js_format_options(o: &ScriptOptions) -> (r: JsFormatOptions)
    requires
        1 <= o.line_width <= 320,
    ensures
        r == biome_js_options(*o),
{
    let source = match o.language {
        Language::JavaScript => biome_js_syntax::JsFileSource::js_module(),
        Language::TypeScript { definition_file: false } => biome_js_syntax::JsFileSource::ts(),
        Language::TypeScript { definition_file: true } => biome_js_syntax::JsFileSource::d_ts(),
    };
    let width = biome_formatter::LineWidth::try_from(o.line_width).unwrap();
    JsFormatOptions::new(source.with_module_kind(o.module_kind).with_variant(o.variant))
        .with_indent_style(o.indent_style).with_indent_width(o.indent_width.into())
        .with_line_ending(o.line_ending).with_line_width(width).with_quote_style(o.quote_style)
        .with_jsx_quote_style(o.jsx_quote_style).with_quote_properties(o.quote_properties)
        .with_trailing_comma(o.trailing_comma).with_semicolons(o.semicolons)
        .with_arrow_parentheses(o.arrow_parentheses).with_bracket_spacing(o.bracket_spacing.into())
        .with_bracket_same_line(o.bracket_same_line.into()).with_attribute_position(o.attribute_position)
}

/// What parsing `src` and formatting it with `options` gives.
pub uninterp spec fn biome_js_output(src: Seq<char>, options: JsFormatOptions) -> Result<
    Seq<char>,
    Seq<char>,
>;

/// Relies on `biome_js_parser::parse` and `biome_js_formatter::format_node`:
/// the printed code, or the formatter's message; it depends on `src` and
/// `options` alone.
#[verifier::external_body]
fn run_biome_js(src: &str, options: JsFormatOptions) -> (r: Result<String, String>)
    ensures
        text_result(r) == biome_js_output(src@, options),
{
    let parser_options = biome_js_parser::JsParserOptions::default().with_parse_class_parameter_decorators();
    let tree = biome_js_parser::parse(src, options.source_type(), parser_options);
    biome_js_formatter::format_node(options, &tree.syntax()).map_err(|e| e.to_string())?.print().map(
        |p| p.into_code(),
    ).map_err(|e| e.to_string())
}

/// A range of the source, as UTF-8 byte offsets.
#[derive(Clone, Copy, Debug, PartialEq, Eq, Structural)]
pub struct TextRange {
    pub start: u32,
    pub end: u32,
}

/// The code printed for a range, and the range of the source it replaces.
#[derive(Clone, Debug, PartialEq, Eq)]
pub struct PrintedRange {
    pub code: String,
    pub range: Option<TextRange>,
}

/// A printed range with its code as a character sequence.
pub open spec fn printed_view(r: Result<PrintedRange, String>) -> Result<(Seq<char>, Option<TextRange>), Seq<char>> {
    match r {
        Ok(p) => Ok((p.code@, p.range)),
        Err(e) => Err(e@),
    }
}

/// What parsing `src` and formatting `range` of it with `options` gives.
pub uninterp spec fn biome_js_range_output(
    src: Seq<char>,
    options: JsFormatOptions,
    range: TextRange,
) -> Result<(Seq<char>, Option<TextRange>), Seq<char>>;

/// Relies on `biome_js_parser::parse` and `biome_js_formatter::format_range`
/// (whose `TextRange::new` asserts `start <= end`): the printed code and
/// replaced range, or the formatter's message, depending on the arguments alone.
#[verifier::external_body]
fn run_biome_js_range(src: &str, options: JsFormatOptions, range: TextRange) -> (r: Result<PrintedRange, String>)
    requires
        range.start <= range.end,
    ensures
        printed_view(r) == biome_js_range_output(src@, options, range),
{
    let parser_options = biome_js_parser::JsParserOptions::default().with_parse_class_parameter_decorators();
    let tree = biome_js_parser::parse(src, options.source_type(), parser_options);
    let text_range = biome_js_syntax::TextRange::new(range.start.into(), range.end.into());
    let printed = biome_js_formatter::format_range(options, &tree.syntax(), text_range).map_err(|e| e.to_string())?;
    let range = printed.range().map(|r| TextRange { start: r.start().into(), end: r.end().into() });
    Ok(PrintedRange { code: printed.into_code(), range })
}

pub open spec fn spec_quote_style(s: Seq<char>) -> Option<QuoteStyle> {
    if s == "double"@ || s == "Double"@ {
        Some(QuoteStyle::Double)
    } else if s == "single"@ || s == "Single"@ {
        Some(QuoteStyle::Single)
    } else {
        None
    }
}

pub open spec fn spec_quote_properties(s: Seq<char>) -> Option<QuoteProperties> {
    if s == "as-needed"@ || s == "AsNeeded"@ {
        Some(QuoteProperties::AsNeeded)
    } else if s == "preserve"@ || s == "Preserve"@ {
        Some(QuoteProperties::Preserve)
    } else {
        None
    }
}

pub open spec fn spec_trailing_comma(s: Seq<char>) -> Option<TrailingComma> {
    if s == "es5"@ || s == "ES5"@ {
        Some(TrailingComma::Es5)
    } else if s == "all"@ || s == "All"@ {
        Some(TrailingComma::All)
    } else if s == "none"@ || s == "None"@ {
        Some(TrailingComma::None)
    } else {
        None
    }
}

pub open spec fn spec_semicolons(s: Seq<char>) -> Option<Semicolons> {
    if s == "as-needed"@ || s == "AsNeeded"@ {
        Some(Semicolons::AsNeeded)
    } else if s == "always"@ || s == "Always"@ {
        Some(Semicolons::Always)
    } else {
        None
    }
}

pub open spec fn spec_arrow_parentheses(s: Seq<char>) -> Option<ArrowParentheses> {
    if s == "as-needed"@ || s == "AsNeeded"@ {
        Some(ArrowParentheses::AsNeeded)
    } else if s == "always"@ || s == "Always"@ {
        Some(ArrowParentheses::Always)
    } else {
        None
    }
}

pub open spec fn spec_attribute_position(s: Seq<char>) -> Option<AttributePosition> {
    if s == "multiline"@ || s == "Multiline"@ {
        Some(AttributePosition::Multiline)
    } else if s == "auto"@ || s == "Auto"@ {
        Some(AttributePosition::Auto)
    } else {
        None
    }
}

fn parse_quote_style(s: &str) -> (r: Option<QuoteStyle>)
    ensures
        r == spec_quote_style(s@),
{
    if text_eq(s, "double") || text_eq(s, "Double") {
        Some(QuoteStyle::Double)
    } else if text_eq(s, "single") || text_eq(s, "Single") {
        Some(QuoteStyle::Single)
    } else {
        None
    }
}

fn parse_quote_properties(s: &str) -> (r: Option<QuoteProperties>)
    ensures
        r == spec_quote_properties(s@),
{
    if text_eq(s, "as-needed") || text_eq(s, "AsNeeded") {
        Some(QuoteProperties::AsNeeded)
    } else if text_eq(s, "preserve") || text_eq(s, "Preserve") {
        Some(QuoteProperties::Preserve)
    } else {
        None
    }
}

fn parse_trailing_comma(s: &str) -> (r: Option<TrailingComma>)
    ensures
        r == spec_trailing_comma(s@),
{
    if text_eq(s, "es5") || text_eq(s, "ES5") {
        Some(TrailingComma::Es5)
    } else if text_eq(s, "all") || text_eq(s, "All") {
        Some(TrailingComma::All)
    } else if text_eq(s, "none") || text_eq(s, "None") {
        Some(TrailingComma::None)
    } else {
        None
    }
}

fn parse_semicolons(s: &str) -> (r: Option<Semicolons>)
    ensures
        r == spec_semicolons(s@),
{
    if text_eq(s, "as-needed") || text_eq(s, "AsNeeded") {
        Some(Semicolons::AsNeeded)
    } else if text_eq(s, "always") || text_eq(s, "Always") {
        Some(Semicolons::Always)
    } else {
        None
    }
}

fn parse_arrow_parentheses(s: &str) -> (r: Option<ArrowParentheses>)
    ensures
        r == spec_arrow_parentheses(s@),
{
    if text_eq(s, "as-needed") || text_eq(s, "AsNeeded") {
        Some(ArrowParentheses::AsNeeded)
    } else if text_eq(s, "always") || text_eq(s, "Always") {
        Some(ArrowParentheses::Always)
    } else {
        None
    }
}

fn parse_attribute_position(s: &str) -> (r: Option<AttributePosition>)
    ensures
        r == spec_attribute_position(s@),
{
    if text_eq(s, "multiline") || text_eq(s, "Multiline") {
        Some(AttributePosition::Multiline)
    } else if text_eq(s, "auto") || text_eq(s, "Auto") {
        Some(AttributePosition::Auto)
    } else {
        None
    }
}

/// A key's value: its default when unset, else the value its text names;
/// a text that names none is rejected.
pub open spec fn spec_pick<T>(
    v: Option<String>,
    parse: spec_fn(Seq<char>) -> Option<T>,
    default: T,
    field: ConfigField,
) -> Result<T, ErrorView> {
    match v {
        None => Ok(default),
        Some(s) => match parse(s@) {
            Some(x) => Ok(x),
            None => Err(ErrorView::InvalidValue { field, value: s@ }),
        },
    }
}

/// The language settings of one call, decided.
#[derive(Clone, Copy)]
pub struct LanguageChoices {
    pub quote_style: QuoteStyle,
    pub jsx_quote_style: QuoteStyle,
    pub quote_properties: QuoteProperties,
    pub trailing_comma: TrailingComma,
    pub semicolons: Semicolons,
    pub arrow_parentheses: ArrowParentheses,
    pub bracket_spacing: bool,
    pub bracket_same_line: bool,
    pub attribute_position: AttributePosition,
}

fn pick_quote_style(v: &Option<String>, field: ConfigField) -> (r: Result<QuoteStyle, FormatError>)
    ensures
        outcome(r) == spec_pick(*v, |s| spec_quote_style(s), QuoteStyle::Double, field),
{
    match v {
        Some(s) => match parse_quote_style(s.as_str()) {
            Some(x) => Ok(x),
            None => Err(FormatError::InvalidValue { field, value: s.clone() }),
        },
        None => Ok(QuoteStyle::Double),
    }
}

fn pick_quote_properties(v: &Option<String>) -> (r: Result<QuoteProperties, FormatError>)
    ensures
        outcome(r) == spec_pick(*v, |s| spec_quote_properties(s), QuoteProperties::AsNeeded, ConfigField::QuoteProperties),
{
    match v {
        Some(s) => match parse_quote_properties(s.as_str()) {
            Some(x) => Ok(x),
            None => Err(FormatError::InvalidValue { field: ConfigField::QuoteProperties, value: s.clone() }),
        },
        None => Ok(QuoteProperties::AsNeeded),
    }
}

fn pick_trailing_comma(v: &Option<String>) -> (r: Result<TrailingComma, FormatError>)
    ensures
        outcome(r) == spec_pick(*v, |s| spec_trailing_comma(s), TrailingComma::All, ConfigField::TrailingComma),
{
    match v {
        Some(s) => match parse_trailing_comma(s.as_str()) {
            Some(x) => Ok(x),
            None => Err(FormatError::InvalidValue { field: ConfigField::TrailingComma, value: s.clone() }),
        },
        None => Ok(TrailingComma::All),
    }
}

fn pick_semicolons(v: &Option<String>) -> (r: Result<Semicolons, FormatError>)
    ensures
        outcome(r) == spec_pick(*v, |s| spec_semicolons(s), Semicolons::Always, ConfigField::Semicolons),
{
    match v {
        Some(s) => match parse_semicolons(s.as_str()) {
            Some(x) => Ok(x),
            None => Err(FormatError::InvalidValue { field: ConfigField::Semicolons, value: s.clone() }),
        },
        None => Ok(Semicolons::Always),
    }
}

fn pick_arrow_parentheses(v: &Option<String>) -> (r: Result<ArrowParentheses, FormatError>)
    ensures
        outcome(r) == spec_pick(*v, |s| spec_arrow_parentheses(s), ArrowParentheses::Always, ConfigField::ArrowParentheses),
{
    match v {
        Some(s) => match parse_arrow_parentheses(s.as_str()) {
            Some(x) => Ok(x),
            None => Err(FormatError::InvalidValue { field: ConfigField::ArrowParentheses, value: s.clone() }),
        },
        None => Ok(ArrowParentheses::Always),
    }
}

fn pick_attribute_position(v: &Option<String>) -> (r: Result<AttributePosition, FormatError>)
    ensures
        outcome(r) == spec_pick(*v, |s| spec_attribute_position(s), AttributePosition::Auto, ConfigField::AttributePosition),
{
    match v {
        Some(s) => match parse_attribute_position(s.as_str()) {
            Some(x) => Ok(x),
            None => Err(FormatError::InvalidValue { field: ConfigField::AttributePosition, value: s.clone() }),
        },
        None => Ok(AttributePosition::Auto),
    }
}

impl LanguageOptions {
    /// Each key decided in declaration order; the first rejected one is reported.
    pub open spec fn spec_choices(self) -> Result<LanguageChoices, ErrorView> {
        let quote_style = spec_pick(self.quote_style, |s| spec_quote_style(s), QuoteStyle::Double, ConfigField::QuoteStyle);
        let jsx_quote_style = spec_pick(self.jsx_quote_style, |s| spec_quote_style(s), QuoteStyle::Double, ConfigField::JsxQuoteStyle);
        let quote_properties = spec_pick(self.quote_properties, |s| spec_quote_properties(s), QuoteProperties::AsNeeded, ConfigField::QuoteProperties);
        let trailing_comma = spec_pick(self.trailing_comma, |s| spec_trailing_comma(s), TrailingComma::All, ConfigField::TrailingComma);
        let semicolons = spec_pick(self.semicolons, |s| spec_semicolons(s), Semicolons::Always, ConfigField::Semicolons);
        let arrow_parentheses = spec_pick(self.arrow_parentheses, |s| spec_arrow_parentheses(s), ArrowParentheses::Always, ConfigField::ArrowParentheses);
        let attribute_position = spec_pick(self.attribute_position, |s| spec_attribute_position(s), AttributePosition::Auto, ConfigField::AttributePosition);
        if quote_style is Err {
            Err(quote_style->Err_0)
        } else if jsx_quote_style is Err {
            Err(jsx_quote_style->Err_0)
        } else if quote_properties is Err {
            Err(quote_properties->Err_0)
        } else if trailing_comma is Err {
            Err(trailing_comma->Err_0)
        } else if semicolons is Err {
            Err(semicolons->Err_0)
        } else if arrow_parentheses is Err {
            Err(arrow_parentheses->Err_0)
        } else if attribute_position is Err {
            Err(attribute_position->Err_0)
        } else {
            Ok(LanguageChoices {
                quote_style: quote_style->Ok_0,
                jsx_quote_style: jsx_quote_style->Ok_0,
                quote_properties: quote_properties->Ok_0,
                trailing_comma: trailing_comma->Ok_0,
                semicolons: semicolons->Ok_0,
                arrow_parentheses: arrow_parentheses->Ok_0,
                bracket_spacing: match self.bracket_spacing {
                    Some(b) => b,
                    None => true,
                },
                bracket_same_line: match self.bracket_same_line {
                    Some(b) => b,
                    None => false,
                },
                attribute_position: attribute_position->Ok_0,
            })
        }
    }

    pub fn choices(&self) -> (r: Result<LanguageChoices, FormatError>)
        ensures
            outcome(r) == self.spec_choices(),
    {
        let quote_style = pick_quote_style(&self.quote_style, ConfigField::QuoteStyle)?;
        let jsx_quote_style = pick_quote_style(&self.jsx_quote_style, ConfigField::JsxQuoteStyle)?;
        let quote_properties = pick_quote_properties(&self.quote_properties)?;
        let trailing_comma = pick_trailing_comma(&self.trailing_comma)?;
        let semicolons = pick_semicolons(&self.semicolons)?;
        let arrow_parentheses = pick_arrow_parentheses(&self.arrow_parentheses)?;
        let attribute_position = pick_attribute_position(&self.attribute_position)?;
        Ok(LanguageChoices {
            quote_style,
            jsx_quote_style,
            quote_properties,
            trailing_comma,
            semicolons,
            arrow_parentheses,
            bracket_spacing: match self.bracket_spacing {
                Some(b) => b,
                None => true,
            },
            bracket_same_line: match self.bracket_same_line {
                Some(b) => b,
                None => false,
            },
            attribute_position,
        })
    }
}

/// biome's default layout.
pub open spec fn script_baseline() -> ResolvedLayout {
    ResolvedLayout { print_width: 80, use_tabs: true, indent_width: 2, line_break: LineEnding::Lf }
}

pub open spec fn spec_language(source: ScriptSource) -> Language {
    if source.typed {
        Language::TypeScript { definition_file: source.declaration }
    } else {
        Language::JavaScript
    }
}

pub open spec fn spec_module_kind(k: ModuleKind) -> JsModuleKind {
    match k {
        ModuleKind::Script => JsModuleKind::Script,
        ModuleKind::Module => JsModuleKind::Module,
    }
}

pub open spec fn spec_variant(v: LanguageVariant) -> JsVariant {
    match v {
        LanguageVariant::Standard => JsVariant::Standard,
        LanguageVariant::StandardRestricted => JsVariant::StandardRestricted,
        LanguageVariant::Jsx => JsVariant::Jsx,
    }
}

impl BiomeConfig {
    pub fn with_line_width(self, line_width: u16) -> (r: Self)
        ensures
            r.layout == (LayoutConfig { line_width: Some(line_width), ..self.layout }),
            r.language == self.language,
    {
        BiomeConfig { layout: self.layout.with_line_width(line_width), ..self }
    }

    pub fn fill_empty_layout_with(self, layout: &LayoutConfig) -> (r: Self)
        ensures
            r.layout == self.layout.overlay(*layout),
            r.language == self.language,
    {
        BiomeConfig { layout: self.layout.fill_empty_with(layout), ..self }
    }

    pub open spec fn layers(self, global: LayoutConfig, print_width: Option<usize>) -> LayoutLayers {
        LayoutLayers {
            per_call: EngineLayout { print_width, ..EngineLayout::empty() },
            per_language: self.layout,
            global,
            baseline: script_baseline(),
        }
    }

    /// Resolves every setting, or names the first key whose value is rejected:
    /// widths out of biome's range, then texts in declaration order.
    pub open spec fn spec_options(
        self,
        source: ScriptSource,
        global: LayoutConfig,
        print_width: Option<usize>,
    ) -> Result<ScriptOptions, ErrorView> {
        let layout = self.layers(global, print_width).spec_resolve();
        let choices = self.language.spec_choices();
        if layout.indent_width > 255 {
            Err(ErrorView::OutOfRange { field: ConfigField::IndentWidth, value: layout.indent_width })
        } else if !(1 <= layout.print_width <= 320) {
            Err(ErrorView::OutOfRange { field: ConfigField::LineWidth, value: layout.print_width })
        } else if choices is Err {
            Err(choices->Err_0)
        } else {
            Ok(ScriptOptions {
                language: spec_language(source),
                module_kind: spec_module_kind(source.module_kind),
                variant: spec_variant(source.variant),
                indent_style: if layout.use_tabs {
                    BiomeIndentStyle::Tab
                } else {
                    BiomeIndentStyle::Space
                },
                indent_width: layout.indent_width as u8,
                line_ending: match layout.line_break {
                    LineEnding::Lf => BiomeLineEnding::Lf,
                    LineEnding::Crlf => BiomeLineEnding::Crlf,
                },
                line_width: layout.print_width as u16,
                quote_style: choices->Ok_0.quote_style,
                jsx_quote_style: choices->Ok_0.jsx_quote_style,
                quote_properties: choices->Ok_0.quote_properties,
                trailing_comma: choices->Ok_0.trailing_comma,
                semicolons: choices->Ok_0.semicolons,
                arrow_parentheses: choices->Ok_0.arrow_parentheses,
                bracket_spacing: choices->Ok_0.bracket_spacing,
                bracket_same_line: choices->Ok_0.bracket_same_line,
                attribute_position: choices->Ok_0.attribute_position,
            })
        }
    }

    pub fn options(
        &self,
        source: ScriptSource,
        global: &LayoutConfig,
        print_width: Option<usize>,
    ) -> (r: Result<ScriptOptions, FormatError>)
        ensures
            outcome(r) == self.spec_options(source, *global, print_width),
    {
        let layers = LayoutLayers {
            per_call: EngineLayout {
                print_width,
                use_tabs: None,
                indent_width: None,
                line_break: None,
            },
            per_language: self.layout,
            global: *global,
            baseline: ResolvedLayout {
                print_width: 80,
                use_tabs: true,
                indent_width: 2,
                line_break: LineEnding::Lf,
            },
        };
        let layout = layers.resolve();
        if layout.indent_width > 255 {
            return Err(FormatError::OutOfRange { field: ConfigField::IndentWidth, value: layout.indent_width });
        }
        if !(1 <= layout.print_width && layout.print_width <= 320) {
            return Err(FormatError::OutOfRange { field: ConfigField::LineWidth, value: layout.print_width });
        }
        let c = self.language.choices()?;
        Ok(ScriptOptions {
            language: if source.typed {
                Language::TypeScript { definition_file: source.declaration }
            } else {
                Language::JavaScript
            },
            module_kind: match source.module_kind {
                ModuleKind::Script => JsModuleKind::Script,
                ModuleKind::Module => JsModuleKind::Module,
            },
            variant: match source.variant {
                LanguageVariant::Standard => JsVariant::Standard,
                LanguageVariant::StandardRestricted => JsVariant::StandardRestricted,
                LanguageVariant::Jsx => JsVariant::Jsx,
            },
            indent_style: if layout.use_tabs {
                BiomeIndentStyle::Tab
            } else {
                BiomeIndentStyle::Space
            },
            indent_width: layout.indent_width as u8,
            line_ending: match layout.line_break {
                LineEnding::Lf => BiomeLineEnding::Lf,
                LineEnding::Crlf => BiomeLineEnding::Crlf,
            },
            line_width: layout.print_width as u16,
            quote_style: c.quote_style,
            jsx_quote_style: c.jsx_quote_style,
            quote_properties: c.quote_properties,
            trailing_comma: c.trailing_comma,
            semicolons: c.semicolons,
            arrow_parentheses: c.arrow_parentheses,
            bracket_spacing: c.bracket_spacing,
            bracket_same_line: c.bracket_same_line,
            attribute_position: c.attribute_position,
        })
    }

    /// Formats `src`, a script named `filename`, with a width for this call.
    pub fn format_with(
        &self,
        src: &str,
        filename: &str,
        global: &LayoutConfig,
        print_width: Option<usize>,
    ) -> (r: Result<String, FormatError>)
        ensures
            result_view(r) == self.spec_format(src@, filename@, *global, print_width),
    {
        match self.options(ScriptSource::detect(filename), global, print_width) {
            Ok(o) => from_engine(run_biome_js(src, js_format_options(&o))),
            Err(e) => Err(e),
        }
    }

    /// What formatting `src` as a script named `filename` gives.
    pub open spec fn spec_format(
        self,
        src: Seq<char>,
        filename: Seq<char>,
        global: LayoutConfig,
        print_width: Option<usize>,
    ) -> Result<Seq<char>, ErrorView> {
        match self.spec_options(ScriptSource::spec_detect(filename), global, print_width) {
            Ok(o) => engine_outcome(biome_js_output(src, biome_js_options(o))),
            Err(e) => Err(e),
        }
    }
}

/// Formats `src`, a script named `filename`: the dialect comes from the name,
/// the settings from the configuration over biome's defaults.
pub fn format_script_with_config(src: &str, filename: &str, config: BiomeConfig) -> (r: Result<
    String,
    FormatError,
>)
    ensures
        result_view(r) == config.spec_format(src@, filename@, LayoutConfig::empty(), None),
{
    let global = LayoutConfig { indent_style: None, indent_width: None, line_width: None, line_ending: None };
    config.format_with(src, filename, &global, None)
}

/// The outcome of a range format, with texts as character sequences.
pub open spec fn range_view(r: Result<PrintedRange, FormatError>) -> Result<(Seq<char>, Option<TextRange>), ErrorView> {
    match r {
        Ok(p) => Ok((p.code@, p.range)),
        Err(e) => Err(e@),
    }
}

impl BiomeConfig {
    /// What formatting `range` of `src`, a script named `filename`, gives.
    pub open spec fn spec_format_range(self, src: Seq<char>, range: TextRange, filename: Seq<char>) -> Result<
        (Seq<char>, Option<TextRange>),
        ErrorView,
    > {
        match self.spec_options(ScriptSource::spec_detect(filename), LayoutConfig::empty(), None) {
            Ok(o) => match biome_js_range_output(src, biome_js_options(o), range) {
                Ok(p) => Ok(p),
                Err(m) => Err(ErrorView::Engine { message: m }),
            },
            Err(e) => Err(e),
        }
    }
}

/// Formats the part `range` of `src`, a script named `filename`.
pub fn format_script_range_with_config(
    src: &str,
    range: TextRange,
    filename: &str,
    config: BiomeConfig,
) -> (r: Result<PrintedRange, FormatError>)
    requires
        range.start <= range.end,
    ensures
        range_view(r) == config.spec_format_range(src@, range, filename@),
{
    let global = LayoutConfig { indent_style: None, indent_width: None, line_width: None, line_ending: None };
    match config.options(ScriptSource::detect(filename), &global, None) {
        Ok(o) => match run_biome_js_range(src, js_format_options(&o), range) {
            Ok(p) => Ok(p),
            Err(message) => Err(FormatError::Engine { message }),
        },
        Err(e) => Err(e),
    }
}

} // verus!
