//! The JSON family, formatted by biome.
use vstd::prelude::*;

use biome_formatter::{IndentStyle as BiomeIndentStyle, LineEnding as BiomeLineEnding};

use crate::error::{
    engine_outcome, from_engine, outcome, result_view, text_result, ConfigField, ErrorView,
    FormatError,
};
use crate::layout::{LayoutConfig, LineEnding};
use crate::resolve::{EngineLayout, LayoutLayers, ResolvedLayout};

verus! {

/// JSON settings: the shared layout keys.
#[derive(Clone, Copy, Debug, PartialEq, Eq, Structural)]
pub struct JsonConfig(pub LayoutConfig);

/// Every setting of one biome JSON call, decided.
#[derive(Clone, Copy)]
pub struct JsonOptions {
    pub indent_style: BiomeIndentStyle,
    pub indent_width: u8,
    pub line_ending: BiomeLineEnding,
    pub line_width: u16,
}

/// What parsing `src` (comments and trailing commas allowed) and formatting
/// it with `options` gives.
pub uninterp spec fn biome_json_output(src: Seq<char>, options: JsonOptions) -> Result<
    Seq<char>,
    Seq<char>,
>;

/// Relies on `biome_json_parser::parse_json`, `JsonFormatOptions` and its
/// setters, and `biome_json_formatter::format_node`: the printed document or
/// the formatter's message, depending on `src` and `options` alone.
#[verifier::external_body]
fn run_biome_json(src: &str, o: &JsonOptions) -> (r: Result<String, String>)
    requires
        1 <= o.line_width <= 320,
    ensures
        text_result(r) == biome_json_output(src@, *o),
{
    let width = biome_formatter::LineWidth::try_from(o.line_width).unwrap();
    let options = biome_json_formatter::context::JsonFormatOptions::new().with_indent_style(o.indent_style)
        .with_indent_width(o.indent_width.into()).with_line_ending(o.line_ending).with_line_width(width);
    let parser_options = biome_json_parser::JsonParserOptions::default().with_allow_comments().with_allow_trailing_commas();
    let parse = biome_json_parser::parse_json(src, parser_options);
    biome_json_formatter::format_node(options, &parse.syntax()).map_err(|e| e.to_string())?.print().map(
        |p| p.into_code(),
    ).map_err(|e| e.to_string())
}

/// biome's default JSON layout.
pub open spec fn json_baseline() -> ResolvedLayout {
    ResolvedLayout { print_width: 80, use_tabs: true, indent_width: 2, line_break: LineEnding::Lf }
}

impl From<LayoutConfig> for JsonConfig {
    fn from(config: LayoutConfig) -> (r: JsonConfig)
        ensures
            r == JsonConfig(config),
    {
        JsonConfig(config)
    }
}

impl vstd::std_specs::convert::FromSpecImpl<LayoutConfig> for JsonConfig {
    open spec fn obeys_from_spec() -> bool {
        true
    }

    open spec fn from_spec(config: LayoutConfig) -> JsonConfig {
        JsonConfig(config)
    }
}

impl JsonConfig {
    pub fn with_line_width(self, line_width: u16) -> (r: Self)
        ensures
            r == JsonConfig(LayoutConfig { line_width: Some(line_width), ..self.0 }),
    {
        JsonConfig(self.0.with_line_width(line_width))
    }

    pub open spec fn layers(self, global: LayoutConfig, print_width: Option<usize>) -> LayoutLayers {
        LayoutLayers {
            per_call: EngineLayout { print_width, ..EngineLayout::empty() },
            per_language: self.0,
            global,
            baseline: json_baseline(),
        }
    }

    /// Resolves the layout, or names a width outside biome's range.
    pub open spec fn spec_options(self, global: LayoutConfig, print_width: Option<usize>) -> Result<
        JsonOptions,
        ErrorView,
    > {
        let layout = self.layers(global, print_width).spec_resolve();
        if layout.indent_width > 255 {
            Err(ErrorView::OutOfRange { field: ConfigField::IndentWidth, value: layout.indent_width })
        } else if !(1 <= layout.print_width <= 320) {
            Err(ErrorView::OutOfRange { field: ConfigField::LineWidth, value: layout.print_width })
        } else {
            Ok(JsonOptions {
                indent_style: if layout.use_tabs {
                    BiomeIndentStyle::Tab
                } else {
                    BiomeIndentStyle::Space
                },
                indent_width: layout.indent_width as u8,
                line_ending: match layout.line_break {
                    LineEnding::Lf => BiomeLineEnding::Lf,
                    LineEnding::Crlf => BiomeLineEnding::Crlf,
                },
                line_width: layout.print_width as u16,
            })
        }
    }

    /// What formatting `src` as JSON gives.
    pub open spec fn spec_format(self, src: Seq<char>, global: LayoutConfig, print_width: Option<usize>) -> Result<Seq<char>, ErrorView> {
        match self.spec_options(global, print_width) {
            Ok(o) => engine_outcome(biome_json_output(src, o)),
            Err(e) => Err(e),
        }
    }

    pub fn options(&self, global: &LayoutConfig, print_width: Option<usize>) -> (r: Result<
        JsonOptions,
        FormatError,
    >)
        ensures
            outcome(r) == self.spec_options(*global, print_width),
    {
        let layers = LayoutLayers {
            per_call: EngineLayout { print_width, use_tabs: None, indent_width: None, line_break: None },
            per_language: self.0,
            global: *global,
            baseline: ResolvedLayout {
                print_width: 80,
                use_tabs: true,
                indent_width: 2,
                line_break: LineEnding::Lf,
            },
        };
        let layout = layers.resolve();
        if layout.indent_width > 255 {
            return Err(FormatError::OutOfRange { field: ConfigField::IndentWidth, value: layout.indent_width });
        }
        if !(1 <= layout.print_width && layout.print_width <= 320) {
            return Err(FormatError::OutOfRange { field: ConfigField::LineWidth, value: layout.print_width });
        }
        Ok(JsonOptions {
            indent_style: if layout.use_tabs {
                BiomeIndentStyle::Tab
            } else {
                BiomeIndentStyle::Space
            },
            indent_width: layout.indent_width as u8,
            line_ending: match layout.line_break {
                LineEnding::Lf => BiomeLineEnding::Lf,
                LineEnding::Crlf => BiomeLineEnding::Crlf,
            },
            line_width: layout.print_width as u16,
        })
    }

    /// Formats `src` as JSON with a width for this call.
    pub fn format_with(&self, src: &str, global: &LayoutConfig, print_width: Option<usize>) -> (r:
        Result<String, FormatError>)
        ensures
            result_view(r) == self.spec_format(src@, *global, print_width),
    {
        match self.options(global, print_width) {
            Ok(o) => from_engine(run_biome_json(src, &o)),
            Err(e) => Err(e),
        }
    }
}

/// Formats `src` as JSON: the layout comes from the configuration over
/// biome's defaults.
pub fn format_json_with_config(src: &str, config: JsonConfig) -> (r: Result<String, FormatError>)
    ensures
        result_view(r) == config.spec_format(src@, LayoutConfig::empty(), None),
{
    let global = LayoutConfig { indent_style: None, indent_width: None, line_width: None, line_ending: None };
    config.format_with(src, &global, None)
}

} // verus!
