use web_fmt::detect::extension;
use web_fmt::{Family, LanguageVariant, MarkupLanguage, ModuleKind, ScriptSource, StyleSyntax};

#[test]
fn script_index_mjs() {
    let s = ScriptSource::detect("index.mjs");
    assert_eq!(s.module_kind, ModuleKind::Module);
    assert!(!s.typed);
    assert_eq!(s.variant, LanguageVariant::Jsx);
    assert!(!s.declaration);
}

#[test]
fn script_index_d_ts() {
    let s = ScriptSource::detect("index.d.ts");
    assert!(s.typed);
    assert!(s.declaration);
}

#[test]
fn script_index_cjsx() {
    let s = ScriptSource::detect("index.cjsx");
    assert_eq!(s.module_kind, ModuleKind::Script);
    assert_eq!(s.variant, LanguageVariant::Jsx);
    assert!(!s.typed);
}

#[test]
fn script_index_cjs_is_restricted() {
    let s = ScriptSource::detect("index.cjs");
    assert_eq!(s.module_kind, ModuleKind::Script);
    assert_eq!(s.variant, LanguageVariant::StandardRestricted);
}

#[test]
fn script_every_combination() {
    for m in ["", "m", "c"] {
        for t in ["j", "t"] {
            for x in ["", "x"] {
                for d in [false, true] {
                    let name = format!("index.{}{}{}s{}", if d { "d." } else { "" }, m, t, x);
                    let s = ScriptSource::detect(&name);
                    assert_eq!(s.typed, t == "t", "{name}");
                    assert_eq!(s.declaration, d && t == "t", "{name}");
                    let kind = if m == "c" { ModuleKind::Script } else { ModuleKind::Module };
                    assert_eq!(s.module_kind, kind, "{name}");
                    let variant = if x == "x" || m != "c" {
                        LanguageVariant::Jsx
                    } else {
                        LanguageVariant::StandardRestricted
                    };
                    assert_eq!(s.variant, variant, "{name}");
                }
            }
        }
    }
}

#[test]
fn script_mixed_case() {
    let s = ScriptSource::detect("INDEX.D.MTS");
    assert!(s.typed);
    assert!(s.declaration);
    assert_eq!(s.module_kind, ModuleKind::Module);
}

#[test]
fn script_fallbacks() {
    let fallback = ScriptSource {
        typed: true,
        declaration: false,
        module_kind: ModuleKind::Module,
        variant: LanguageVariant::Jsx,
    };
    assert_eq!(ScriptSource::detect(""), fallback);
    assert_eq!(ScriptSource::detect("s"), fallback);
    assert_eq!(ScriptSource::detect("Makefile"), fallback);
    assert_eq!(ScriptSource::detect("component.vue"), fallback);
}

#[test]
fn style_dialects() {
    assert_eq!(StyleSyntax::detect("style.scss"), StyleSyntax::Scss);
    assert_eq!(StyleSyntax::detect("style.sass"), StyleSyntax::Sass);
    assert_eq!(StyleSyntax::detect("style.less"), StyleSyntax::Less);
    assert_eq!(StyleSyntax::detect("style.css"), StyleSyntax::Css);
    assert_eq!(StyleSyntax::detect("STYLE.SCSS"), StyleSyntax::Scss);
    assert_eq!(StyleSyntax::detect("style"), StyleSyntax::Css);
    assert_eq!(StyleSyntax::detect("style.ss"), StyleSyntax::Css);
}

#[test]
fn markup_dialects() {
    assert_eq!(MarkupLanguage::detect("component.vue"), MarkupLanguage::Vue);
    assert_eq!(MarkupLanguage::detect("App.svelte"), MarkupLanguage::Svelte);
    assert_eq!(MarkupLanguage::detect("page.astro"), MarkupLanguage::Astro);
    assert_eq!(MarkupLanguage::detect("base.jinja2"), MarkupLanguage::Jinja);
    assert_eq!(MarkupLanguage::detect("base.TWIG"), MarkupLanguage::Jinja);
    assert_eq!(MarkupLanguage::detect("index.html"), MarkupLanguage::Html);
    assert_eq!(MarkupLanguage::detect("index.xyz"), MarkupLanguage::Html);
    assert_eq!(MarkupLanguage::detect("README"), MarkupLanguage::Html);
}

#[test]
fn extension_of_paths() {
    assert_eq!(extension("a/b/c.txt"), Some("txt"));
    assert_eq!(extension("a.b.c"), Some("c"));
    assert_eq!(extension("dir.d/file"), None);
    assert_eq!(extension(".bashrc"), None);
    assert_eq!(extension("file."), Some(""));
    assert_eq!(extension(""), None);
}

#[test]
fn family_table() {
    for e in ["js", "ts", "mjs", "cjs", "jsx", "tsx", "mjsx", "cjsx", "mtsx", "ctsx"] {
        assert_eq!(Family::of_filename(&format!("a.{e}")), Some(Family::Script), "{e}");
    }
    for e in ["css", "scss", "sass", "less"] {
        assert_eq!(Family::of_filename(&format!("a.{e}")), Some(Family::Style), "{e}");
    }
    for e in ["html", "vue", "svelte", "astro", "jinja", "jinja2", "twig"] {
        assert_eq!(Family::of_filename(&format!("a.{e}")), Some(Family::Markup), "{e}");
    }
    for e in ["json", "jsonc"] {
        assert_eq!(Family::of_filename(&format!("a.{e}")), Some(Family::Json), "{e}");
    }
    for e in ["graphql", "gql"] {
        assert_eq!(Family::of_filename(&format!("a.{e}")), Some(Family::Graphql), "{e}");
    }
    assert_eq!(Family::of_filename("index.d.mts"), Some(Family::Script));
    assert_eq!(Family::of_filename("index.d.cts"), Some(Family::Script));
    assert_eq!(Family::of_filename("index.mts"), None);
    assert_eq!(Family::of_filename("unknown.xyz"), None);
    assert_eq!(Family::of_filename("noext"), None);
}
