//! Dialect detection: from a file name to the dialect that formats it.
use vstd::prelude::*;

use crate::text::{
    eq_ignore_case, find_last, last_index_of, lemma_last_index_of, letter_is, letter_matches,
    text_eq, text_eq_ignore_case,
};

verus! {

/// ECMAScript module or script.
#[derive(Clone, Copy, Debug, PartialEq, Eq, Structural)]
pub enum ModuleKind {
    Script,
    Module,
}

/// Syntax extensions accepted by the script parser.
#[derive(Clone, Copy, Debug, PartialEq, Eq, Structural)]
pub enum LanguageVariant {
    Standard,
    StandardRestricted,
    Jsx,
}

/// What a script file name says about its contents.
#[derive(Clone, Copy, Debug, PartialEq, Eq, Structural)]
pub struct ScriptSource {
    pub typed: bool,
    pub declaration: bool,
    pub module_kind: ModuleKind,
    pub variant: LanguageVariant,
}

/// Style sheet dialects.
#[derive(Clone, Copy, Debug, PartialEq, Eq, Structural)]
pub enum StyleSyntax {
    Css,
    Scss,
    Sass,
    Less,
}

/// Markup dialects.
#[derive(Clone, Copy, Debug, PartialEq, Eq, Structural)]
pub enum MarkupLanguage {
    Html,
    Vue,
    Svelte,
    Astro,
    Jinja,
}

/// Dialect families, each formatted by its own engine.
#[derive(Clone, Copy, Debug, PartialEq, Eq, Structural)]
pub enum Family {
    Script,
    Style,
    Markup,
    Json,
    Graphql,
}

/// The part of a path after its last `/`.
pub open spec fn spec_file_name(path: Seq<char>) -> Seq<char> {
    path.subrange(last_index_of(path, '/') + 1, path.len() as int)
}

/// The text after the last `.` of the file name, when that dot is not its
/// first character.
pub open spec fn spec_extension(path: Seq<char>) -> Option<Seq<char>> {
    let name = spec_file_name(path);
    let dot = last_index_of(name, '.');
    if dot > 0 {
        Some(name.subrange(dot + 1, name.len() as int))
    } else {
        None
    }
}

/// The extension of a path's file name.
pub fn extension(path: &str) -> (r: Option<&str>)
    ensures
        r matches Some(e) ==> spec_extension(path@) == Some(e@),
        r is None ==> spec_extension(path@) is None,
{
    proof {
        lemma_last_index_of(path@, '/');
    }
    let n = path.unicode_len();
    let start: usize = match find_last(path, '/') {
        Some(i) => i + 1,
        None => 0,
    };
    let name = path.substring_char(start, n);
    assert(name@ == spec_file_name(path@));
    proof {
        lemma_last_index_of(name@, '.');
    }
    match find_last(name, '.') {
        Some(dot) => {
            if dot > 0 {
                let m = name.unicode_len();
                Some(name.substring_char(dot + 1, m))
            } else {
                None
            }
        },
        None => None,
    }
}

/// `s[end - 1]` is the ASCII letter `lower` in either case.
pub open spec fn ends_with_letter(s: Seq<char>, end: int, lower: char) -> bool {
    0 < end <= s.len() && letter_is(s[end - 1], lower)
}

impl ScriptSource {
    /// The dialect used when a name is not recognised: typed, with JSX.
    pub open spec fn fallback() -> ScriptSource {
        ScriptSource {
            typed: true,
            declaration: false,
            module_kind: ModuleKind::Module,
            variant: LanguageVariant::Jsx,
        }
    }

    /// Peels recognised suffixes off the end of `name`, in order: `x` (JSX),
    /// `s` (required), `t` (typed) or `j`, `m` (module) or `c` (script), `.`,
    /// and a `d.` marking a declaration file.
    pub open spec fn spec_detect(name: Seq<char>) -> ScriptSource {
        let e0 = name.len() as int;
        let x = ends_with_letter(name, e0, 'x');
        let e1 = if x { e0 - 1 } else { e0 };
        if !ends_with_letter(name, e1, 's') {
            ScriptSource::fallback()
        } else {
            let e2 = e1 - 1;
            let t = ends_with_letter(name, e2, 't');
            let j = !t && ends_with_letter(name, e2, 'j');
            let e3 = if t || j { e2 - 1 } else { e2 };
            let m = ends_with_letter(name, e3, 'm');
            let c = !m && ends_with_letter(name, e3, 'c');
            let e4 = if m || c { e3 - 1 } else { e3 };
            if !(0 < e4 && name[e4 - 1] == '.') {
                ScriptSource::fallback()
            } else {
                let e5 = e4 - 1;
                let d = ends_with_letter(name, e5, 'd') && 1 < e5 && name[e5 - 2] == '.';
                ScriptSource {
                    typed: t,
                    declaration: t && d,
                    module_kind: if c {
                        ModuleKind::Script
                    } else {
                        ModuleKind::Module
                    },
                    variant: if x || !c {
                        LanguageVariant::Jsx
                    } else {
                        LanguageVariant::StandardRestricted
                    },
                }
            }
        }
    }

    /// Reads the script dialect off the end of a file name; never fails.
    pub fn detect(filename: &str) -> (r: ScriptSource)
        ensures
            r == ScriptSource::spec_detect(filename@),
    {
        let n = filename.unicode_len();
        let mut end = n;
        let x = end > 0 && letter_matches(filename.get_char(end - 1), 'x');
        if x {
            end = end - 1;
        }
        if !(end > 0 && letter_matches(filename.get_char(end - 1), 's')) {
            return ScriptSource {
                typed: true,
                declaration: false,
                module_kind: ModuleKind::Module,
                variant: LanguageVariant::Jsx,
            };
        }
        end = end - 1;
        let t = end > 0 && letter_matches(filename.get_char(end - 1), 't');
        let j = !t && end > 0 && letter_matches(filename.get_char(end - 1), 'j');
        if t || j {
            end = end - 1;
        }
        let m = end > 0 && letter_matches(filename.get_char(end - 1), 'm');
        let c = !m && end > 0 && letter_matches(filename.get_char(end - 1), 'c');
        if m || c {
            end = end - 1;
        }
        if !(end > 0 && filename.get_char(end - 1) == '.') {
            return ScriptSource {
                typed: true,
                declaration: false,
                module_kind: ModuleKind::Module,
                variant: LanguageVariant::Jsx,
            };
        }
        end = end - 1;
        let d = end > 1 && letter_matches(filename.get_char(end - 1), 'd') && filename.get_char(
            end - 2,
        ) == '.';
        ScriptSource {
            typed: t,
            declaration: t && d,
            module_kind: if c {
                ModuleKind::Script
            } else {
                ModuleKind::Module
            },
            variant: if x || !c {
                LanguageVariant::Jsx
            } else {
                LanguageVariant::StandardRestricted
            },
        }
    }
}

impl StyleSyntax {
    /// Chosen by an extension, compared without ASCII case; CSS otherwise.
    pub open spec fn spec_of_extension(e: Seq<char>) -> StyleSyntax {
        if eq_ignore_case(e, "css"@) {
            StyleSyntax::Css
        } else if eq_ignore_case(e, "scss"@) {
            StyleSyntax::Scss
        } else if eq_ignore_case(e, "sass"@) {
            StyleSyntax::Sass
        } else if eq_ignore_case(e, "less"@) {
            StyleSyntax::Less
        } else {
            StyleSyntax::Css
        }
    }

    /// Chosen by the file name's extension; CSS when there is none.
    pub open spec fn spec_detect(filename: Seq<char>) -> StyleSyntax {
        match spec_extension(filename) {
            Some(e) => StyleSyntax::spec_of_extension(e),
            None => StyleSyntax::Css,
        }
    }

    pub fn of_extension(e: &str) -> (r: StyleSyntax)
        ensures
            r == StyleSyntax::spec_of_extension(e@),
    {
        if text_eq_ignore_case(e, "css") {
            StyleSyntax::Css
        } else if text_eq_ignore_case(e, "scss") {
            StyleSyntax::Scss
        } else if text_eq_ignore_case(e, "sass") {
            StyleSyntax::Sass
        } else if text_eq_ignore_case(e, "less") {
            StyleSyntax::Less
        } else {
            StyleSyntax::Css
        }
    }

    pub fn detect(filename: &str) -> (r: StyleSyntax)
        ensures
            r == StyleSyntax::spec_detect(filename@),
    {
        match extension(filename) {
            Some(e) => StyleSyntax::of_extension(e),
            None => StyleSyntax::Css,
        }
    }
}

impl MarkupLanguage {
    /// Chosen by the extension, compared without ASCII case; HTML otherwise.
    pub open spec fn spec_detect(filename: Seq<char>) -> MarkupLanguage {
        match spec_extension(filename) {
            Some(e) => if eq_ignore_case(e, "vue"@) {
                MarkupLanguage::Vue
            } else if eq_ignore_case(e, "svelte"@) {
                MarkupLanguage::Svelte
            } else if eq_ignore_case(e, "astro"@) {
                MarkupLanguage::Astro
            } else if eq_ignore_case(e, "jinja"@) || eq_ignore_case(e, "jinja2"@) || eq_ignore_case(
                e,
                "twig"@,
            ) {
                MarkupLanguage::Jinja
            } else {
                MarkupLanguage::Html
            },
            None => MarkupLanguage::Html,
        }
    }

    pub fn detect(filename: &str) -> (r: MarkupLanguage)
        ensures
            r == MarkupLanguage::spec_detect(filename@),
    {
        match extension(filename) {
            Some(e) => if text_eq_ignore_case(e, "vue") {
                MarkupLanguage::Vue
            } else if text_eq_ignore_case(e, "svelte") {
                MarkupLanguage::Svelte
            } else if text_eq_ignore_case(e, "astro") {
                MarkupLanguage::Astro
            } else if text_eq_ignore_case(e, "jinja") || text_eq_ignore_case(e, "jinja2")
                || text_eq_ignore_case(e, "twig") {
                MarkupLanguage::Jinja
            } else {
                MarkupLanguage::Html
            },
            None => MarkupLanguage::Html,
        }
    }
}

impl Family {
    /// The family of an extension, matched exactly. `mts` and `cts` count
    /// only for declaration files.
    pub open spec fn spec_of_extension(ext: Seq<char>, declaration: bool) -> Option<Family> {
        if ext == "js"@ || ext == "ts"@ || ext == "mjs"@ || ext == "cjs"@ || ext == "jsx"@ || ext
            == "tsx"@ || ext == "mjsx"@ || ext == "cjsx"@ || ext == "mtsx"@ || ext == "ctsx"@
            || (declaration && (ext == "mts"@ || ext == "cts"@)) {
            Some(Family::Script)
        } else if ext == "css"@ || ext == "scss"@ || ext == "sass"@ || ext == "less"@ {
            Some(Family::Style)
        } else if ext == "html"@ || ext == "vue"@ || ext == "svelte"@ || ext == "astro"@ || ext
            == "jinja"@ || ext == "jinja2"@ || ext == "twig"@ {
            Some(Family::Markup)
        } else if ext == "json"@ || ext == "jsonc"@ {
            Some(Family::Json)
        } else if ext == "graphql"@ || ext == "gql"@ {
            Some(Family::Graphql)
        } else {
            None
        }
    }

    /// The family that formats a file, from its name.
    pub open spec fn spec_of_filename(filename: Seq<char>) -> Option<Family> {
        match spec_extension(filename) {
            Some(e) => Family::spec_of_extension(e, ScriptSource::spec_detect(filename).declaration),
            None => None,
        }
    }

    pub fn of_extension(ext: &str, declaration: bool) -> (r: Option<Family>)
        ensures
            r == Family::spec_of_extension(ext@, declaration),
    {
        if text_eq(ext, "js") || text_eq(ext, "ts") || text_eq(ext, "mjs") || text_eq(ext, "cjs")
            || text_eq(ext, "jsx") || text_eq(ext, "tsx") || text_eq(ext, "mjsx") || text_eq(
            ext,
            "cjsx",
        ) || text_eq(ext, "mtsx") || text_eq(ext, "ctsx") || (declaration && (text_eq(ext, "mts")
            || text_eq(ext, "cts"))) {
            Some(Family::Script)
        } else if text_eq(ext, "css") || text_eq(ext, "scss") || text_eq(ext, "sass") || text_eq(
            ext,
            "less",
        ) {
            Some(Family::Style)
        } else if text_eq(ext, "html") || text_eq(ext, "vue") || text_eq(ext, "svelte") || text_eq(
            ext,
            "astro",
        ) || text_eq(ext, "jinja") || text_eq(ext, "jinja2") || text_eq(ext, "twig") {
            Some(Family::Markup)
        } else if text_eq(ext, "json") || text_eq(ext, "jsonc") {
            Some(Family::Json)
        } else if text_eq(ext, "graphql") || text_eq(ext, "gql") {
            Some(Family::Graphql)
        } else {
            None
        }
    }

    /// The family that formats a file; `None` when the extension is missing or
    /// unrecognised.
    pub fn of_filename(filename: &str) -> (r: Option<Family>)
        ensures
            r == Family::spec_of_filename(filename@),
    {
        match extension(filename) {
            Some(e) => {
                let source = ScriptSource::detect(filename);
                Family::of_extension(e, source.declaration)
            },
            None => None,
        }
    }
}

} // verus!
