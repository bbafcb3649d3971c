//! Field-by-field resolution of layered layout settings.
use vstd::prelude::*;

use crate::layout::{first_set, IndentStyle, LayoutConfig, LineEnding};

verus! {

/// Layout options under the names the engines use; each may be unset.
#[derive(Clone, Copy, Debug, PartialEq, Eq, Structural)]
pub struct EngineLayout {
    pub print_width: Option<usize>,
    pub use_tabs: Option<bool>,
    pub indent_width: Option<usize>,
    pub line_break: Option<LineEnding>,
}

/// Layout options with every field decided.
#[derive(Clone, Copy, Debug, PartialEq, Eq, Structural)]
pub struct ResolvedLayout {
    pub print_width: usize,
    pub use_tabs: bool,
    pub indent_width: usize,
    pub line_break: LineEnding,
}

/// The layers that a resolution reads, highest priority first.
#[derive(Clone, Copy, Debug, PartialEq, Eq, Structural)]
pub struct LayoutLayers {
    /// Set for this one call (an embedded region's width, engine-named keys).
    pub per_call: EngineLayout,
    /// The layout keys given for the dialect family.
    pub per_language: LayoutConfig,
    /// The layout keys given for every family.
    pub global: LayoutConfig,
    /// The engine's own defaults.
    pub baseline: ResolvedLayout,
}

impl Default for EngineLayout {
    fn default() -> (r: EngineLayout)
        ensures
            r == EngineLayout::empty(),
    {
        EngineLayout { print_width: None, use_tabs: None, indent_width: None, line_break: None }
    }
}

impl EngineLayout {
    pub open spec fn empty() -> EngineLayout {
        EngineLayout { print_width: None, use_tabs: None, indent_width: None, line_break: None }
    }

    /// The same settings under the engine names, widened.
    pub open spec fn spec_from(l: LayoutConfig) -> EngineLayout {
        EngineLayout {
            print_width: match l.line_width {
                Some(w) => Some(w as usize),
                None => None,
            },
            use_tabs: match l.indent_style {
                Some(s) => Some(s == IndentStyle::Tab),
                None => None,
            },
            indent_width: match l.indent_width {
                Some(w) => Some(w as usize),
                None => None,
            },
            line_break: l.line_ending,
        }
    }

    /// Field by field: the value of `self` where set, else the value of `other`.
    pub open spec fn overlay(self, other: EngineLayout) -> EngineLayout {
        EngineLayout {
            print_width: first_set(self.print_width, other.print_width),
            use_tabs: first_set(self.use_tabs, other.use_tabs),
            indent_width: first_set(self.indent_width, other.indent_width),
            line_break: first_set(self.line_break, other.line_break),
        }
    }

    /// Every unset field takes the baseline's value.
    pub open spec fn complete(self, baseline: ResolvedLayout) -> ResolvedLayout {
        ResolvedLayout {
            print_width: match self.print_width {
                Some(v) => v,
                None => baseline.print_width,
            },
            use_tabs: match self.use_tabs {
                Some(v) => v,
                None => baseline.use_tabs,
            },
            indent_width: match self.indent_width {
                Some(v) => v,
                None => baseline.indent_width,
            },
            line_break: match self.line_break {
                Some(v) => v,
                None => baseline.line_break,
            },
        }
    }

    pub fn from_layout(l: &LayoutConfig) -> (r: EngineLayout)
        ensures
            r == EngineLayout::spec_from(*l),
    {
        EngineLayout {
            print_width: match l.line_width {
                Some(w) => Some(w as usize),
                None => None,
            },
            use_tabs: match l.indent_style {
                Some(s) => Some(s.use_tabs()),
                None => None,
            },
            indent_width: match l.indent_width {
                Some(w) => Some(w as usize),
                None => None,
            },
            line_break: l.line_ending,
        }
    }

    pub fn with_print_width(self, print_width: usize) -> (r: EngineLayout)
        ensures
            r == (EngineLayout { print_width: Some(print_width), ..self }),
    {
        EngineLayout { print_width: Some(print_width), ..self }
    }

    /// Fills each unset field from `other`; set fields are kept.
    pub fn fill_empty_with(self, other: &Self) -> (r: Self)
        ensures
            r == self.overlay(*other),
    {
        let mut this = self;
        if this.print_width.is_none() {
            this.print_width = other.print_width;
        }
        if this.use_tabs.is_none() {
            this.use_tabs = other.use_tabs;
        }
        if this.indent_width.is_none() {
            this.indent_width = other.indent_width;
        }
        if this.line_break.is_none() {
            this.line_break = other.line_break;
        }
        this
    }

    pub fn complete_with(&self, baseline: &ResolvedLayout) -> (r: ResolvedLayout)
        ensures
            r == self.complete(*baseline),
    {
        ResolvedLayout {
            print_width: match self.print_width {
                Some(v) => v,
                None => baseline.print_width,
            },
            use_tabs: match self.use_tabs {
                Some(v) => v,
                None => baseline.use_tabs,
            },
            indent_width: match self.indent_width {
                Some(v) => v,
                None => baseline.indent_width,
            },
            line_break: match self.line_break {
                Some(v) => v,
                None => baseline.line_break,
            },
        }
    }
}

impl LayoutLayers {
    /// Each field from the first layer that sets it, in the order per-call,
    /// per-language, global, baseline.
    pub open spec fn spec_resolve(self) -> ResolvedLayout {
        self.per_call.overlay(
            EngineLayout::spec_from(self.per_language.overlay(self.global)),
        ).complete(self.baseline)
    }

    pub fn resolve(&self) -> (r: ResolvedLayout)
        ensures
            r == self.spec_resolve(),
    {
        let family = self.per_language.fill_empty_with(&self.global);
        let merged = self.per_call.fill_empty_with(&EngineLayout::from_layout(&family));
        merged.complete_with(&self.baseline)
    }
}

/// A field that the per-call layer sets is resolved to that value, whatever
/// the lower layers hold; a field it leaves unset but the per-language layer
/// sets is resolved to the per-language value, whatever the global layer holds.
pub proof fn cascade_priority(layers: LayoutLayers)
    ensures
        layers.per_call.print_width matches Some(v) ==> layers.spec_resolve().print_width == v,
        layers.per_call.use_tabs matches Some(v) ==> layers.spec_resolve().use_tabs == v,
        layers.per_call.indent_width matches Some(v) ==> layers.spec_resolve().indent_width == v,
        layers.per_call.line_break matches Some(v) ==> layers.spec_resolve().line_break == v,
        layers.per_call.print_width is None ==> (layers.per_language.line_width matches Some(v)
            ==> layers.spec_resolve().print_width == v as usize),
        layers.per_call.use_tabs is None ==> (layers.per_language.indent_style matches Some(v)
            ==> layers.spec_resolve().use_tabs == (v == IndentStyle::Tab)),
        layers.per_call.indent_width is None ==> (layers.per_language.indent_width matches Some(v)
            ==> layers.spec_resolve().indent_width == v as usize),
        layers.per_call.line_break is None ==> (layers.per_language.line_ending matches Some(v)
            ==> layers.spec_resolve().line_break == v),
        layers.per_call.print_width is None && layers.per_language.line_width is None ==> (
        layers.global.line_width matches Some(v) ==> layers.spec_resolve().print_width
            == v as usize),
        layers.per_call.use_tabs is None && layers.per_language.indent_style is None ==> (
        layers.global.indent_style matches Some(v) ==> layers.spec_resolve().use_tabs == (v
            == IndentStyle::Tab)),
        layers.per_call.indent_width is None && layers.per_language.indent_width is None ==> (
        layers.global.indent_width matches Some(v) ==> layers.spec_resolve().indent_width
            == v as usize),
        layers.per_call.line_break is None && layers.per_language.line_ending is None ==> (
        layers.global.line_ending matches Some(v) ==> layers.spec_resolve().line_break == v),
{
}

/// A field that no layer above the baseline sets is resolved to the
/// baseline's value; with all upper layers empty the result is the baseline.
pub proof fn cascade_totality(layers: LayoutLayers)
    ensures
        layers.per_call.print_width is None && layers.per_language.line_width is None
            && layers.global.line_width is None ==> layers.spec_resolve().print_width
            == layers.baseline.print_width,
        layers.per_call.use_tabs is None && layers.per_language.indent_style is None
            && layers.global.indent_style is None ==> layers.spec_resolve().use_tabs
            == layers.baseline.use_tabs,
        layers.per_call.indent_width is None && layers.per_language.indent_width is None
            && layers.global.indent_width is None ==> layers.spec_resolve().indent_width
            == layers.baseline.indent_width,
        layers.per_call.line_break is None && layers.per_language.line_ending is None
            && layers.global.line_ending is None ==> layers.spec_resolve().line_break
            == layers.baseline.line_break,
        layers.per_call == EngineLayout::empty() && layers.per_language == LayoutConfig::empty()
            && layers.global == LayoutConfig::empty() ==> layers.spec_resolve() == layers.baseline,
{
}

/// Resolving equal layers gives equal results.
pub proof fn cascade_determinism(a: LayoutLayers, b: LayoutLayers)
    requires
        a == b,
    ensures
        a.spec_resolve() == b.spec_resolve(),
{
}

} // verus!
