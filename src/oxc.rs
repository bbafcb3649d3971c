//! The layout and source-name decisions of the oxc script formatter; the
//! formatter itself is driven by the bindings.
use vstd::prelude::*;

use crate::layout::{first_set, IndentStyle, LayoutConfig, LineEnding};

verus! {

/// The layout keys that oxc's own configuration reads, as given.
#[derive(Clone, Copy, Debug, PartialEq, Eq, Structural)]
pub struct OxfmtLayout {
    pub use_tabs: Option<bool>,
    pub tab_width: Option<u8>,
    pub print_width: Option<u16>,
    /// Whether oxc's own `end_of_line` key is set.
    pub end_of_line_set: bool,
}

/// Script settings for oxc: the shared layout keys and oxc's own keys.
#[derive(Clone, Copy, Debug, PartialEq, Eq, Structural)]
pub struct OxFmtOptions {
    pub layout: LayoutConfig,
    pub inner: OxfmtLayout,
}

/// oxc's keys after the shared keys filled the unset ones, and the line
/// ending to impose on the converted options.
#[derive(Clone, Copy, Debug, PartialEq, Eq, Structural)]
pub struct OxfmtLayoutFill {
    pub inner: OxfmtLayout,
    pub line_ending: Option<LineEnding>,
}

impl OxFmtOptions {
    /// oxc's own keys win; each unset one takes the shared key. The line
    /// ending is imposed only when oxc's own key is unset.
    pub open spec fn spec_fill(self) -> OxfmtLayoutFill {
        OxfmtLayoutFill {
            inner: OxfmtLayout {
                use_tabs: first_set(
                    self.inner.use_tabs,
                    match self.layout.indent_style {
                        Some(s) => Some(s == IndentStyle::Tab),
                        None => None,
                    },
                ),
                tab_width: first_set(self.inner.tab_width, self.layout.indent_width),
                print_width: first_set(self.inner.print_width, self.layout.line_width),
                end_of_line_set: self.inner.end_of_line_set,
            },
            line_ending: if self.inner.end_of_line_set {
                None
            } else {
                self.layout.line_ending
            },
        }
    }

    pub fn fill(&self) -> (r: OxfmtLayoutFill)
        ensures
            r == self.spec_fill(),
    {
        let mut inner = self.inner;
        if inner.use_tabs.is_none() {
            if let Some(style) = self.layout.indent_style {
                inner.use_tabs = Some(style.use_tabs());
            }
        }
        if inner.tab_width.is_none() {
            inner.tab_width = self.layout.indent_width;
        }
        if inner.print_width.is_none() {
            inner.print_width = self.layout.line_width;
        }
        let line_ending = if inner.end_of_line_set {
            None
        } else {
            self.layout.line_ending
        };
        OxfmtLayoutFill { inner, line_ending }
    }
}

/// The path from which oxc infers the source type: `_.<ext>` when an
/// extension overrides the file name, else the file name.
pub open spec fn spec_source_path(filename: Seq<char>, ext: Option<Seq<char>>) -> Seq<char> {
    match ext {
        Some(e) => seq!['_', '.'] + e,
        None => filename,
    }
}

pub fn source_path(filename: &str, ext: Option<&str>) -> (r: String)
    ensures
        r@ == spec_source_path(filename@, match ext {
            Some(e) => Some(e@),
            None => None,
        }),
{
    match ext {
        Some(e) => {
            let path = String::from_str("_.").concat(e);
            proof {
                reveal_strlit("_.");
                assert(path@ =~= seq!['_', '.'] + e@);
            }
            path
        },
        None => String::from_str(filename),
    }
}

} // verus!
