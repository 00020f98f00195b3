//! The error type shared by the whole library.

use vstd::prelude::*;
use vstd::string::*;

verus! {

/// The error a failed template rendering ends with. The library carries it
/// through without looking inside.
#[verifier::external_type_specification]
#[verifier::external_body]
pub struct ExTemplateError(tera::Error);

/// Everything that can go wrong while localizations are built, rendered and
/// stored.
#[derive(Debug)]
pub enum LocError {
    /// A header that names none of the supported languages; holds the header.
    UnknownLanguage(String),
    /// The operation is declared but has no implementation yet.
    NotImplemented,
    /// The file system refused an operation. `message` names the operation
    /// and the path, `cause` is what the file system reported.
    IoFailure { message: String, cause: String },
    /// The template engine failed; holds its error as it came.
    RenderFailure(tera::Error),
}

/// What an error holds, with each text as its characters.
pub enum LocErrorView {
    UnknownLanguage(Seq<char>),
    NotImplemented,
    IoFailure { message: Seq<char>, cause: Seq<char> },
    RenderFailure(tera::Error),
}

impl View for LocError {
    type V = LocErrorView;

    open spec fn view(&self) -> LocErrorView {
        match *self {
            LocError::UnknownLanguage(header) => LocErrorView::UnknownLanguage(header@),
            LocError::NotImplemented => LocErrorView::NotImplemented,
            LocError::IoFailure { message, cause } => LocErrorView::IoFailure {
                message: message@,
                cause: cause@,
            },
            LocError::RenderFailure(error) => LocErrorView::RenderFailure(error),
        }
    }
}

/// The text of a template engine error, by `tera::Error`'s `Display`
/// (through `ToString::to_string`). Nothing is claimed about the text.
#[verifier::external_body]
fn template_error_text(e: &tera::Error) -> (text: String) {
    e.to_string()
}

impl LocError {
    /// What `to_string` returns, where the library decides it.
    pub open spec fn text_spec(self) -> Option<Seq<char>> {
        match self {
            LocError::UnknownLanguage(header) => Some("Unknown language: "@ + header@),
            LocError::NotImplemented => Some("not implemented"@),
            LocError::IoFailure { message, .. } => Some(message@),
            LocError::RenderFailure(_) => None,
        }
    }

    /// A line of text for the error. For a render failure it is the template
    /// engine's own text.
    pub fn to_string(&self) -> (text: String)
        ensures
            self.text_spec() matches Some(t) ==> text@ == t,
    {
        match self {
            LocError::UnknownLanguage(header) => {
                let mut text = String::from_str("Unknown language: ");
                text.append(header.as_str());
                text
            },
            LocError::NotImplemented => String::from_str("not implemented"),
            LocError::IoFailure { message, .. } => message.clone(),
            LocError::RenderFailure(e) => template_error_text(e),
        }
    }
}

} // verus!
