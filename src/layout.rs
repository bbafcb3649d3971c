//! The shared, engine-agnostic layout values and their field-wise overlay.
use vstd::prelude::*;

use crate::text::text_eq;

verus! {

/// Whether indentation uses tab characters or spaces.
#[derive(Clone, Copy, Debug, PartialEq, Eq, Structural)]
pub enum IndentStyle {
    Tab,
    Space,
}

/// The line terminator written between lines.
#[derive(Clone, Copy, Debug, PartialEq, Eq, Structural)]
pub enum LineEnding {
    Lf,
    Crlf,
}

/// The first of two optional values that is set.
pub open spec fn first_set<T>(a: Option<T>, b: Option<T>) -> Option<T> {
    if a is Some {
        a
    } else {
        b
    }
}

impl IndentStyle {
    pub open spec fn spec_name(self) -> Seq<char> {
        match self {
            IndentStyle::Tab => "tab"@,
            IndentStyle::Space => "space"@,
        }
    }

    /// The spellings accepted for each style.
    pub open spec fn spec_parse(s: Seq<char>) -> Option<IndentStyle> {
        if s == "tab"@ || s == "tabs"@ || s == "\t"@ {
            Some(IndentStyle::Tab)
        } else if s == "space"@ || s == "spaces"@ || s == " "@ {
            Some(IndentStyle::Space)
        } else {
            None
        }
    }

    pub fn as_str(&self) -> (r: &'static str)
        ensures
            r@ == self.spec_name(),
    {
        match self {
            IndentStyle::Tab => "tab",
            IndentStyle::Space => "space",
        }
    }

    pub fn use_tabs(&self) -> (r: bool)
        ensures
            r == (*self == IndentStyle::Tab),
    {
        matches!(self, IndentStyle::Tab)
    }

    /// Reads a style from one of its accepted spellings.
    pub fn parse(s: &str) -> (r: Option<IndentStyle>)
        ensures
            r == IndentStyle::spec_parse(s@),
    {
        if text_eq(s, "tab") || text_eq(s, "tabs") || text_eq(s, "\t") {
            Some(IndentStyle::Tab)
        } else if text_eq(s, "space") || text_eq(s, "spaces") || text_eq(s, " ") {
            Some(IndentStyle::Space)
        } else {
            None
        }
    }
}

impl LineEnding {
    pub open spec fn spec_name(self) -> Seq<char> {
        match self {
            LineEnding::Lf => "lf"@,
            LineEnding::Crlf => "crlf"@,
        }
    }

    /// The spellings accepted for each line ending.
    pub open spec fn spec_parse(s: Seq<char>) -> Option<LineEnding> {
        if s == "lf"@ || s == "\n"@ {
            Some(LineEnding::Lf)
        } else if s == "crlf"@ || s == "\r\n"@ {
            Some(LineEnding::Crlf)
        } else {
            None
        }
    }

    pub fn as_str(&self) -> (r: &'static str)
        ensures
            r@ == self.spec_name(),
    {
        match self {
            LineEnding::Lf => "lf",
            LineEnding::Crlf => "crlf",
        }
    }

    /// Reads a line ending from one of its accepted spellings.
    pub fn parse(s: &str) -> (r: Option<LineEnding>)
        ensures
            r == LineEnding::spec_parse(s@),
    {
        if text_eq(s, "lf") || text_eq(s, "\n") {
            Some(LineEnding::Lf)
        } else if text_eq(s, "crlf") || text_eq(s, "\r\n") {
            Some(LineEnding::Crlf)
        } else {
            None
        }
    }
}

impl std::str::FromStr for IndentStyle {
    type Err = ();

    fn from_str(s: &str) -> Result<IndentStyle, ()> {
        match IndentStyle::parse(s) {
            Some(v) => Ok(v),
            None => Err(()),
        }
    }
}

impl std::str::FromStr for LineEnding {
    type Err = ();

    fn from_str(s: &str) -> Result<LineEnding, ()> {
        match LineEnding::parse(s) {
            Some(v) => Ok(v),
            None => Err(()),
        }
    }
}

/// Layout settings shared by every engine; each field may be left unset.
#[derive(Clone, Copy, Debug, PartialEq, Eq, Structural)]
pub struct LayoutConfig {
    pub indent_style: Option<IndentStyle>,
    pub indent_width: Option<u8>,
    pub line_width: Option<u16>,
    pub line_ending: Option<LineEnding>,
}

impl Default for LayoutConfig {
    fn default() -> (r: LayoutConfig)
        ensures
            r == LayoutConfig::empty(),
    {
        LayoutConfig { indent_style: None, indent_width: None, line_width: None, line_ending: None }
    }
}

impl LayoutConfig {
    /// The configuration with every field unset.
    pub open spec fn empty() -> LayoutConfig {
        LayoutConfig { indent_style: None, indent_width: None, line_width: None, line_ending: None }
    }

    /// Field by field: the value of `self` where set, else the value of `other`.
    pub open spec fn overlay(self, other: LayoutConfig) -> LayoutConfig {
        LayoutConfig {
            indent_style: first_set(self.indent_style, other.indent_style),
            indent_width: first_set(self.indent_width, other.indent_width),
            line_width: first_set(self.line_width, other.line_width),
            line_ending: first_set(self.line_ending, other.line_ending),
        }
    }

    /// Fills each unset field from `other`; set fields are kept.
    pub fn fill_empty_with(self, other: &Self) -> (r: Self)
        ensures
            r == self.overlay(*other),
    {
        let mut this = self;
        if this.indent_style.is_none() {
            this.indent_style = other.indent_style;
        }
        if this.indent_width.is_none() {
            this.indent_width = other.indent_width;
        }
        if this.line_width.is_none() {
            this.line_width = other.line_width;
        }
        if this.line_ending.is_none() {
            this.line_ending = other.line_ending;
        }
        this
    }

    pub fn with_indent_style(self, indent_style: IndentStyle) -> (r: Self)
        ensures
            r == (LayoutConfig { indent_style: Some(indent_style), ..self }),
    {
        LayoutConfig { indent_style: Some(indent_style), ..self }
    }

    pub fn with_indent_width(self, indent_width: u8) -> (r: Self)
        ensures
            r == (LayoutConfig { indent_width: Some(indent_width), ..self }),
    {
        LayoutConfig { indent_width: Some(indent_width), ..self }
    }

    pub fn with_line_width(self, line_width: u16) -> (r: Self)
        ensures
            r == (LayoutConfig { line_width: Some(line_width), ..self }),
    {
        LayoutConfig { line_width: Some(line_width), ..self }
    }

    pub fn with_line_ending(self, line_ending: LineEnding) -> (r: Self)
        ensures
            r == (LayoutConfig { line_ending: Some(line_ending), ..self }),
    {
        LayoutConfig { line_ending: Some(line_ending), ..self }
    }

    pub fn indent_style(&self) -> (r: Option<IndentStyle>)
        ensures
            r == self.indent_style,
    {
        self.indent_style
    }

    pub fn indent_width(&self) -> (r: Option<u8>)
        ensures
            r == self.indent_width,
    {
        self.indent_width
    }

    pub fn line_width(&self) -> (r: Option<u16>)
        ensures
            r == self.line_width,
    {
        self.line_width
    }

    pub fn line_ending(&self) -> (r: Option<LineEnding>)
        ensures
            r == self.line_ending,
    {
        self.line_ending
    }
}

} // verus!
