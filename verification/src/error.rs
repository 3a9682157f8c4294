//! Why a transformation is refused.

use vstd::prelude::*;

verus! {

/// The ways in which generating the guarded pair can fail.
#[derive(Debug, PartialEq, Eq)]
pub enum TransformError {
    /// The configuration does not start with an identifier, or its options
    /// are not separated by commas.
    MalformedAttribute,
    /// A literal among the options is not a timing word. Holds the literal
    /// as it was written.
    InvalidTimingKeyword(String),
    /// The declaration's first parameter is not a receiver.
    MissingReceiver,
    /// The text given as a declaration is not a function. Holds the parser's
    /// message.
    MalformedDeclaration(String),
}

/// An error as contracts see it.
pub enum TransformErrorView {
    MalformedAttribute,
    InvalidTimingKeyword(Seq<char>),
    MissingReceiver,
    MalformedDeclaration(Seq<char>),
}

impl View for TransformError {
    type V = TransformErrorView;

    open spec fn view(&self) -> TransformErrorView {
        match self {
            TransformError::MalformedAttribute => TransformErrorView::MalformedAttribute,
            TransformError::InvalidTimingKeyword(s) => TransformErrorView::InvalidTimingKeyword(s@),
            TransformError::MissingReceiver => TransformErrorView::MissingReceiver,
            TransformError::MalformedDeclaration(s) => TransformErrorView::MalformedDeclaration(s@),
        }
    }
}

/// A result as contracts see it: the view of the value, or that of the
/// error.
pub open spec fn viewed<T: View>(result: Result<T, TransformError>) -> Result<
    T::V,
    TransformErrorView,
> {
    match result {
        Ok(value) => Ok(value@),
        Err(error) => Err(error@),
    }
}

/// The text that reports `error`.
pub open spec fn error_message(error: TransformErrorView) -> Seq<char> {
    match error {
        TransformErrorView::MalformedAttribute =>
            "expected an identifier, then options separated by commas"@,
        TransformErrorView::InvalidTimingKeyword(value) => "Invalid check time: "@ + value
            + ", expected one of: \"before\", \"after\", \"before_and_after\""@,
        TransformErrorView::MissingReceiver => "The input function must have a self argument"@,
        TransformErrorView::MalformedDeclaration(message) => message,
    }
}

impl TransformError {
    /// The text that reports this error. For a literal that is no timing
    /// word it names the literal and the three words to choose from.
    pub fn message(&self) -> (r: String)
        ensures
            r@ == error_message(self@),
    {
        match self {
            TransformError::MalformedAttribute => String::from_str(
                "expected an identifier, then options separated by commas",
            ),
            TransformError::InvalidTimingKeyword(value) => {
                let mut text = String::from_str("Invalid check time: ");
                text.append(value.as_str());
                text.append(", expected one of: \"before\", \"after\", \"before_and_after\"");
                text
            },
            TransformError::MissingReceiver => String::from_str(
                "The input function must have a self argument",
            ),
            TransformError::MalformedDeclaration(message) => message.clone(),
        }
    }
}

} // verus!
