use web_fmt::{EngineLayout, IndentStyle, LayoutConfig, LayoutLayers, LineEnding, ResolvedLayout};

fn unset() -> EngineLayout {
    EngineLayout { print_width: None, use_tabs: None, indent_width: None, line_break: None }
}

fn baseline() -> ResolvedLayout {
    ResolvedLayout { print_width: 80, use_tabs: false, indent_width: 2, line_break: LineEnding::Lf }
}

#[test]
fn fill_empty_keeps_set_fields() {
    let a = LayoutConfig::default().with_line_width(100);
    let b = LayoutConfig::default().with_line_width(40).with_indent_style(IndentStyle::Tab);
    let c = a.fill_empty_with(&b);
    assert_eq!(c.line_width(), Some(100));
    assert_eq!(c.indent_style(), Some(IndentStyle::Tab));
    assert_eq!(c.indent_width(), None);
    assert_eq!(c.line_ending(), None);
}

#[test]
fn builders_and_getters() {
    let c = LayoutConfig::default()
        .with_indent_style(IndentStyle::Space)
        .with_indent_width(4)
        .with_line_width(120)
        .with_line_ending(LineEnding::Crlf);
    assert_eq!(c.indent_style(), Some(IndentStyle::Space));
    assert_eq!(c.indent_width(), Some(4));
    assert_eq!(c.line_width(), Some(120));
    assert_eq!(c.line_ending(), Some(LineEnding::Crlf));
}

#[test]
fn names_and_spellings() {
    assert_eq!(IndentStyle::Tab.as_str(), "tab");
    assert_eq!(IndentStyle::Space.as_str(), "space");
    assert!(IndentStyle::Tab.use_tabs());
    assert!(!IndentStyle::Space.use_tabs());
    assert_eq!(LineEnding::Lf.as_str(), "lf");
    assert_eq!(LineEnding::Crlf.as_str(), "crlf");
    assert_eq!(IndentStyle::parse("tabs"), Some(IndentStyle::Tab));
    assert_eq!(IndentStyle::parse(" "), Some(IndentStyle::Space));
    assert_eq!(IndentStyle::parse("Tab"), None);
    assert_eq!(LineEnding::parse("\r\n"), Some(LineEnding::Crlf));
    assert_eq!(LineEnding::parse("cr"), None);
}

#[test]
fn cascade_per_call_wins() {
    let layers = LayoutLayers {
        per_call: EngineLayout { print_width: Some(30), ..unset() },
        per_language: LayoutConfig::default().with_line_width(60).with_indent_style(IndentStyle::Tab),
        global: LayoutConfig::default().with_line_width(90).with_indent_width(8),
        baseline: baseline(),
    };
    let r = layers.resolve();
    assert_eq!(r.print_width, 30);
    assert!(r.use_tabs);
    assert_eq!(r.indent_width, 8);
    assert_eq!(r.line_break, LineEnding::Lf);
}

#[test]
fn cascade_only_line_width_keeps_lower_indent_style() {
    let layers = LayoutLayers {
        per_call: unset(),
        per_language: LayoutConfig::default().with_line_width(100),
        global: LayoutConfig::default().with_indent_style(IndentStyle::Tab),
        baseline: baseline(),
    };
    let r = layers.resolve();
    assert_eq!(r.print_width, 100);
    assert!(r.use_tabs);
}

#[test]
fn cascade_all_unset_gives_baseline() {
    let layers = LayoutLayers {
        per_call: unset(),
        per_language: LayoutConfig::default(),
        global: LayoutConfig::default(),
        baseline: baseline(),
    };
    assert_eq!(layers.resolve(), baseline());
}

#[test]
fn cascade_is_deterministic() {
    let layers = LayoutLayers {
        per_call: EngineLayout { indent_width: Some(3), ..unset() },
        per_language: LayoutConfig::default().with_line_ending(LineEnding::Crlf),
        global: LayoutConfig::default().with_line_width(70),
        baseline: baseline(),
    };
    assert_eq!(layers.resolve(), layers.resolve());
    assert_eq!(
        layers.resolve(),
        ResolvedLayout { print_width: 70, use_tabs: false, indent_width: 3, line_break: LineEnding::Crlf }
    );
}
