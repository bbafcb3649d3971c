use web_fmt::oxc::{source_path, OxFmtOptions, OxfmtLayout};
use web_fmt::{
    BiomeConfig, EngineLayout, GraphqlConfig, IndentStyle, LayoutConfig, LineEnding, MalvaConfig,
    MarkupConfig,
};

fn unset_oxc() -> OxfmtLayout {
    OxfmtLayout { use_tabs: None, tab_width: None, print_width: None, end_of_line_set: false }
}

#[test]
fn oxc_own_keys_win() {
    let o = OxFmtOptions {
        layout: LayoutConfig::default().with_indent_style(IndentStyle::Tab).with_line_width(100),
        inner: OxfmtLayout { use_tabs: Some(false), print_width: Some(60), ..unset_oxc() },
    };
    let f = o.fill();
    assert_eq!(f.inner.use_tabs, Some(false));
    assert_eq!(f.inner.print_width, Some(60));
    assert_eq!(f.inner.tab_width, None);
}

#[test]
fn oxc_shared_keys_fill_unset_ones() {
    let o = OxFmtOptions {
        layout: LayoutConfig::default()
            .with_indent_style(IndentStyle::Tab)
            .with_indent_width(4)
            .with_line_width(100)
            .with_line_ending(LineEnding::Crlf),
        inner: unset_oxc(),
    };
    let f = o.fill();
    assert_eq!(f.inner.use_tabs, Some(true));
    assert_eq!(f.inner.tab_width, Some(4));
    assert_eq!(f.inner.print_width, Some(100));
    assert_eq!(f.line_ending, Some(LineEnding::Crlf));
}

#[test]
fn oxc_own_line_ending_is_not_overridden() {
    let o = OxFmtOptions {
        layout: LayoutConfig::default().with_line_ending(LineEnding::Crlf),
        inner: OxfmtLayout { end_of_line_set: true, ..unset_oxc() },
    };
    assert_eq!(o.fill().line_ending, None);
}

#[test]
fn oxc_source_path() {
    assert_eq!(source_path("component.vue", Some("ts")), "_.ts");
    assert_eq!(source_path("index.tsx", None), "index.tsx");
}

#[test]
fn engine_layout_from_shared_keys() {
    let l = LayoutConfig::default().with_indent_style(IndentStyle::Space).with_indent_width(3).with_line_width(99);
    let e = EngineLayout::from_layout(&l);
    assert_eq!(
        e,
        EngineLayout { print_width: Some(99), use_tabs: Some(false), indent_width: Some(3), line_break: None }
    );
    let filled = EngineLayout { print_width: Some(10), ..EngineLayout::default() }.fill_empty_with(&e);
    assert_eq!(filled.print_width, Some(10));
    assert_eq!(filled.indent_width, Some(3));
}

#[test]
fn family_builders() {
    let script = BiomeConfig::default().with_line_width(50).fill_empty_layout_with(
        &LayoutConfig::default().with_line_width(70).with_indent_width(6),
    );
    assert_eq!(script.layout.line_width, Some(50));
    assert_eq!(script.layout.indent_width, Some(6));

    let style = MalvaConfig {
        layout: LayoutConfig::default(),
        malva_layout: EngineLayout::default(),
        quotes: malva::config::Quotes::AlwaysDouble,
        single_line_top_level_declarations: false,
        language: malva::config::LanguageOptions::default(),
    }
    .with_line_width(33);
    assert_eq!(style.malva_layout.print_width, Some(33));

    let graphql = GraphqlConfig {
        layout: LayoutConfig::default(),
        graphql_layout: EngineLayout::default(),
        language: pretty_graphql::config::LanguageOptions::default(),
    }
    .with_print_width(44)
    .fill_empty_layout_with(&LayoutConfig::default().with_indent_width(8));
    assert_eq!(graphql.graphql_layout.print_width, Some(44));
    assert_eq!(graphql.layout.indent_width, Some(8));

    let markup = MarkupConfig {
        layout: LayoutConfig::default(),
        markup_layout: EngineLayout::default(),
        quotes: markup_fmt::config::Quotes::Single,
        language: markup_fmt::config::LanguageOptions::default(),
    }
    .with_line_width(120);
    assert_eq!(markup.markup_layout.print_width, Some(120));
    assert!(matches!(markup.quotes(), markup_fmt::config::Quotes::Single));
}
