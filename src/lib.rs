//! Orchestration layer of a multi-language code formatter: dialect detection,
//! layered configuration resolution, engine dispatch and embedded formatting.

pub mod detect;
pub mod dispatch;
pub mod error;
pub mod graphql;
pub mod json;
pub mod layout;
pub mod markup;
pub mod oxc;
pub mod resolve;
pub mod script;
pub mod style;
pub mod text;

pub use detect::{Family, LanguageVariant, MarkupLanguage, ModuleKind, ScriptSource, StyleSyntax};
pub use dispatch::Config;
pub use error::{ConfigField, FormatError};
pub use graphql::{format_graphql_with_config, GraphqlConfig};
pub use json::{format_json_with_config, JsonConfig};
pub use layout::{IndentStyle, LayoutConfig, LineEnding};
pub use markup::{format_markup_with_config, EmbeddedConfig, MarkupConfig};
pub use resolve::{EngineLayout, LayoutLayers, ResolvedLayout};
pub use script::{
    format_script_range_with_config, format_script_with_config, BiomeConfig, LanguageOptions,
    PrintedRange, TextRange,
};
pub use style::{format_style_with_config, AttrContext, MalvaConfig};
