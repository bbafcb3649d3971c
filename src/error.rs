//! Errors of a format call.
use vstd::prelude::*;

verus! {

/// A configuration field whose value can be rejected.
#[derive(Clone, Copy, Debug, PartialEq, Eq, Structural)]
pub enum ConfigField {
    IndentWidth,
    LineWidth,
    QuoteStyle,
    JsxQuoteStyle,
    QuoteProperties,
    TrailingComma,
    Semicolons,
    ArrowParentheses,
    AttributePosition,
}

/// Why a format call failed.
#[derive(Clone, Debug, PartialEq, Eq)]
pub enum FormatError {
    /// A text value matches none of the field's accepted spellings.
    InvalidValue { field: ConfigField, value: String },
    /// A number lies outside the range the engine accepts for the field.
    OutOfRange { field: ConfigField, value: usize },
    /// The file name's extension belongs to no known dialect family.
    UnsupportedExtension { filename: String },
    /// The formatting engine failed; its message is passed on unchanged.
    Engine { message: String },
}

/// `FormatError` with its texts as character sequences.
pub enum ErrorView {
    InvalidValue { field: ConfigField, value: Seq<char> },
    OutOfRange { field: ConfigField, value: usize },
    UnsupportedExtension { filename: Seq<char> },
    Engine { message: Seq<char> },
}

impl View for FormatError {
    type V = ErrorView;

    open spec fn view(&self) -> ErrorView {
        match self {
            FormatError::InvalidValue { field, value } => ErrorView::InvalidValue {
                field: *field,
                value: value@,
            },
            FormatError::OutOfRange { field, value } => ErrorView::OutOfRange {
                field: *field,
                value: *value,
            },
            FormatError::UnsupportedExtension { filename } => ErrorView::UnsupportedExtension {
                filename: filename@,
            },
            FormatError::Engine { message } => ErrorView::Engine { message: message@ },
        }
    }
}

/// The outcome of a format call, with texts as character sequences.
pub open spec fn result_view(r: Result<String, FormatError>) -> Result<Seq<char>, ErrorView> {
    match r {
        Ok(s) => Ok(s@),
        Err(e) => Err(e@),
    }
}

/// A result with its error as a view.
pub open spec fn outcome<T>(r: Result<T, FormatError>) -> Result<T, ErrorView> {
    match r {
        Ok(o) => Ok(o),
        Err(e) => Err(e@),
    }
}

/// An engine's outcome, with texts as character sequences.
pub open spec fn text_result(r: Result<String, String>) -> Result<Seq<char>, Seq<char>> {
    match r {
        Ok(s) => Ok(s@),
        Err(e) => Err(e@),
    }
}

/// An engine's outcome as the outcome of a format call.
pub open spec fn engine_outcome(out: Result<Seq<char>, Seq<char>>) -> Result<Seq<char>, ErrorView> {
    match out {
        Ok(s) => Ok(s),
        Err(m) => Err(ErrorView::Engine { message: m }),
    }
}

/// Passes an engine's outcome on, its failure as an engine error.
pub fn from_engine(r: Result<String, String>) -> (out: Result<String, FormatError>)
    ensures
        result_view(out) == engine_outcome(text_result(r)),
{
    match r {
        Ok(s) => Ok(s),
        Err(message) => Err(FormatError::Engine { message }),
    }
}

} // verus!
