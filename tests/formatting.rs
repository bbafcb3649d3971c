use web_fmt::script::LanguageOptions;
use web_fmt::{
    format_graphql_with_config, format_json_with_config, format_markup_with_config,
    format_script_range_with_config, format_script_with_config, format_style_with_config,
    AttrContext, BiomeConfig, Config, ConfigField, EmbeddedConfig, EngineLayout, FormatError,
    GraphqlConfig, IndentStyle, JsonConfig, LayoutConfig, MalvaConfig, MarkupConfig, StyleSyntax,
    TextRange,
};

fn style_config() -> MalvaConfig {
    MalvaConfig {
        layout: LayoutConfig::default(),
        malva_layout: EngineLayout::default(),
        quotes: malva::config::Quotes::AlwaysDouble,
        single_line_top_level_declarations: false,
        language: malva::config::LanguageOptions::default(),
    }
}

fn markup_config() -> MarkupConfig {
    MarkupConfig {
        layout: LayoutConfig::default(),
        markup_layout: EngineLayout::default(),
        quotes: markup_fmt::config::Quotes::Double,
        language: markup_fmt::config::LanguageOptions::default(),
    }
}

fn graphql_config() -> GraphqlConfig {
    GraphqlConfig {
        layout: LayoutConfig::default(),
        graphql_layout: EngineLayout::default(),
        language: pretty_graphql::config::LanguageOptions::default(),
    }
}

fn embedded_config() -> EmbeddedConfig {
    EmbeddedConfig {
        global: LayoutConfig::default(),
        style: style_config(),
        script: BiomeConfig::default(),
        json: JsonConfig(LayoutConfig::default()),
        graphql: graphql_config(),
    }
}

fn config() -> Config {
    Config {
        global: LayoutConfig::default(),
        markup: markup_config(),
        script: BiomeConfig::default(),
        style: style_config(),
        json: JsonConfig(LayoutConfig::default()),
        graphql: graphql_config(),
    }
}

fn engine_message(r: Result<String, FormatError>) -> String {
    match r {
        Err(FormatError::Engine { message }) => message,
        other => panic!("expected an engine error, got {other:?}"),
    }
}

#[test]
fn script_is_formatted() {
    let r = format_script_with_config("let  a=1", "index.js", BiomeConfig::default());
    assert_eq!(r, Ok("let a = 1;\n".to_string()));
}

#[test]
fn script_default_indent_is_tab() {
    let r = format_script_with_config("function f(){return 1}", "index.js", BiomeConfig::default());
    assert_eq!(r, Ok("function f() {\n\treturn 1;\n}\n".to_string()));
}

#[test]
fn script_layout_and_quotes_are_applied() {
    let config = BiomeConfig {
        layout: LayoutConfig::default().with_indent_style(IndentStyle::Space).with_indent_width(4),
        language: LanguageOptions { quote_style: Some("single".to_string()), ..Default::default() },
    };
    let r = format_script_with_config("function f(){return \"x\"}", "index.ts", config);
    assert_eq!(r, Ok("function f() {\n    return 'x';\n}\n".to_string()));
}

#[test]
fn script_rejects_unknown_spelling() {
    let config = BiomeConfig {
        layout: LayoutConfig::default(),
        language: LanguageOptions { semicolons: Some("sometimes".to_string()), ..Default::default() },
    };
    let r = format_script_with_config("a", "index.js", config);
    assert_eq!(
        r,
        Err(FormatError::InvalidValue { field: ConfigField::Semicolons, value: "sometimes".to_string() })
    );
}

#[test]
fn script_first_rejected_key_is_reported() {
    let config = BiomeConfig {
        layout: LayoutConfig::default(),
        language: LanguageOptions {
            quote_style: Some("triple".to_string()),
            trailing_comma: Some("some".to_string()),
            ..Default::default()
        },
    };
    let r = format_script_with_config("a", "index.js", config);
    assert_eq!(
        r,
        Err(FormatError::InvalidValue { field: ConfigField::QuoteStyle, value: "triple".to_string() })
    );
}

#[test]
fn script_rejects_line_width_out_of_range() {
    let config = BiomeConfig { layout: LayoutConfig::default().with_line_width(400), ..Default::default() };
    let r = format_script_with_config("a", "index.js", config);
    assert_eq!(r, Err(FormatError::OutOfRange { field: ConfigField::LineWidth, value: 400 }));
    let config = BiomeConfig { layout: LayoutConfig::default().with_line_width(0), ..Default::default() };
    let r = format_script_with_config("a", "index.js", config);
    assert_eq!(r, Err(FormatError::OutOfRange { field: ConfigField::LineWidth, value: 0 }));
}

#[test]
fn graphql_syntax_error_is_engine_error() {
    let r = format_graphql_with_config("query {", "q.graphql", graphql_config());
    assert!(!engine_message(r).is_empty());
}

#[test]
fn script_range_is_formatted() {
    let src = "let  a=1;\nlet  b=2;\n";
    let r = format_script_range_with_config(
        src,
        TextRange { start: 0, end: 9 },
        "index.js",
        BiomeConfig::default(),
    )
    .unwrap();
    assert!(r.code.starts_with("let a = 1;"), "{:?}", r.code);
    assert!(r.range.is_some());
}

#[test]
fn json_is_formatted() {
    let r = format_json_with_config("{\"a\":1,\"b\":[1,2]}", JsonConfig(LayoutConfig::default()));
    assert_eq!(r, Ok("{ \"a\": 1, \"b\": [1, 2] }\n".to_string()));
}

#[test]
fn json_narrow_width_breaks_lines() {
    let config = JsonConfig(LayoutConfig::default()).with_line_width(10);
    let r = format_json_with_config("{\"alpha\":1,\"beta\":2}", config);
    assert_eq!(r, Ok("{\n\t\"alpha\": 1,\n\t\"beta\": 2\n}\n".to_string()));
}


#[test]
fn style_is_formatted() {
    let r = format_style_with_config("a{color:red}", "style.css", style_config());
    assert_eq!(r, Ok("a {\n  color: red;\n}\n".to_string()));
}

#[test]
fn style_engine_layout_key_wins_over_shared_key() {
    let config = MalvaConfig {
        layout: LayoutConfig::default().with_indent_width(8),
        malva_layout: EngineLayout { indent_width: Some(4), ..EngineLayout::default() },
        ..style_config()
    };
    let r = format_style_with_config("a{color:red}", "style.css", config);
    assert_eq!(r, Ok("a {\n    color: red;\n}\n".to_string()));
}

#[test]
fn style_syntax_error_is_engine_error() {
    let r = format_style_with_config("a{color:", "style.css", style_config());
    assert!(!engine_message(r).is_empty());
}

#[test]
fn graphql_is_formatted() {
    let r = format_graphql_with_config("query{a}", "q.graphql", graphql_config());
    assert_eq!(r, Ok("query {\n  a\n}\n".to_string()));
}

#[test]
fn markup_is_formatted() {
    let r = format_markup_with_config("<div><p>hi</p></div>", "index.html", markup_config(), embedded_config());
    assert_eq!(r, Ok("<div><p>hi</p></div>\n".to_string()));
}

#[test]
fn markup_formats_embedded_style() {
    let src = "<div></div>\n<style>a{color:red}</style>\n";
    let r = format_markup_with_config(src, "index.html", markup_config(), embedded_config()).unwrap();
    assert!(r.contains("a {\n"), "{r}");
    assert!(r.contains("color: red;"), "{r}");
}

#[test]
fn markup_fails_when_embedded_style_fails() {
    let style_error = engine_message(format_style_with_config("a{color:", "style.css", style_config()));
    let reason = style_error.split(": ").last().unwrap().to_string();
    let src = "<div></div>\n<style>a{color:</style>\n";
    let r = format_markup_with_config(src, "index.html", markup_config(), embedded_config());
    let message = engine_message(r);
    assert!(message.contains("Engine { message: "), "{message}");
    assert!(message.contains(&reason), "{message}");
}

#[test]
fn region_of_unknown_family_passes_through() {
    let e = embedded_config();
    let once = e.format_region("a{color:red}", "txt", 80, false, true).unwrap();
    assert_eq!(once, "a{color:red}");
    let twice = e.format_region(&once, "txt", 80, false, true).unwrap();
    assert_eq!(twice, once);
}

#[test]
fn region_uses_its_family_and_width() {
    let e = embedded_config();
    let r = e.format_region("{\"alpha\":1,\"beta\":2}", "json", 10, false, true);
    assert_eq!(r, Ok("{\n\t\"alpha\": 1,\n\t\"beta\": 2\n}\n".to_string()));
    let r = e.format_region("a{color:red}", "scss", 80, false, true);
    assert_eq!(r, Ok("a {\n  color: red;\n}\n".to_string()));
    let r = e.format_region("let  a=1", "ts", 80, false, true);
    assert_eq!(r, Ok("let a = 1;\n".to_string()));
}

#[test]
fn region_error_is_not_swallowed() {
    let e = embedded_config();
    let direct = format_style_with_config("a{color:", "style.css", style_config());
    let r = e.format_region("a{color:", "css", 80, false, true);
    assert_eq!(r, direct);
}

#[test]
fn attribute_region_inverts_quotes() {
    let c = style_config();
    let o = c.options(
        StyleSyntax::Css,
        &LayoutConfig::default(),
        Some(40),
        AttrContext { inside_attr: true, host_double_quotes: true },
    );
    assert!(matches!(o.quotes, malva::config::Quotes::AlwaysSingle));
    assert!(o.single_line_top_level_declarations);
    assert_eq!(o.layout.print_width, 40);
    let o = c.options(
        StyleSyntax::Css,
        &LayoutConfig::default(),
        None,
        AttrContext { inside_attr: true, host_double_quotes: false },
    );
    assert!(matches!(o.quotes, malva::config::Quotes::AlwaysDouble));
    let o = c.options(StyleSyntax::Css, &LayoutConfig::default(), None, AttrContext::default());
    assert!(matches!(o.quotes, malva::config::Quotes::AlwaysDouble));
    assert!(!o.single_line_top_level_declarations);
}

#[test]
fn attribute_region_text_uses_single_quotes() {
    let e = embedded_config();
    let r = e.format_region("a{content:\"x\"}", "css", 80, true, true).unwrap();
    assert!(r.contains("'x'"), "{r}");
    assert!(!r.contains("\"x\""), "{r}");
}

#[test]
fn dispatch_selects_family_engine() {
    assert_eq!(web_fmt::dispatch::format("let  a=1", "index.mjs", config()), Ok("let a = 1;\n".to_string()));
    assert_eq!(web_fmt::dispatch::format("a{color:red}", "a.less", config()), Ok("a {\n  color: red;\n}\n".to_string()));
    assert_eq!(web_fmt::dispatch::format("{\"a\":1}", "a.jsonc", config()), Ok("{ \"a\": 1 }\n".to_string()));
    assert_eq!(web_fmt::dispatch::format("query{a}", "a.gql", config()), Ok("query {\n  a\n}\n".to_string()));
    assert_eq!(
        web_fmt::dispatch::format("<div><p>hi</p></div>", "index.vue", config()),
        format_markup_with_config("<div><p>hi</p></div>", "index.vue", markup_config(), embedded_config())
    );
}

#[test]
fn dispatch_rejects_unknown_extension() {
    assert_eq!(
        web_fmt::dispatch::format("x", "unknown.xyz", config()),
        Err(FormatError::UnsupportedExtension { filename: "unknown.xyz".to_string() })
    );
    assert_eq!(
        web_fmt::dispatch::format("x", "Makefile", config()),
        Err(FormatError::UnsupportedExtension { filename: "Makefile".to_string() })
    );
}

#[test]
fn dispatch_applies_global_layout() {
    let mut c = config();
    c.global = LayoutConfig::default().with_indent_style(IndentStyle::Space).with_indent_width(4);
    assert_eq!(web_fmt::dispatch::format("function f(){return 1}", "a.js", c), Ok("function f() {\n    return 1;\n}\n".to_string()));
}

#[test]
fn formatting_twice_changes_nothing() {
    let once = web_fmt::dispatch::format("a{color:red}", "a.css", config()).unwrap();
    let twice = web_fmt::dispatch::format(&once, "a.css", config()).unwrap();
    assert_eq!(once, twice);
}
