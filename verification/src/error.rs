//! Failures that are shown to the user.

use vstd::prelude::*;

verus! {

/// A failure that waits in the error queue until it is shown.
///
/// The text carried by a variant is what the failed operation reported.
#[derive(Clone, Debug, PartialEq, Eq)]
pub enum AppError {
    /// The song folder could not be listed.
    Io(String),
    /// The tag of a song could not be read or written when saving a rename.
    TagWrite(String),
    /// A song could not be opened or decoded.
    Playback(String),
    /// The song that a rename targets is not in the catalog.
    NotFound,
}

/// What an `AppError` says, with its text as a sequence of characters.
pub enum ErrorView {
    Io(Seq<char>),
    TagWrite(Seq<char>),
    Playback(Seq<char>),
    NotFound,
}

impl View for AppError {
    type V = ErrorView;

    open spec fn view(&self) -> ErrorView {
        match self {
            AppError::Io(detail) => ErrorView::Io(detail@),
            AppError::TagWrite(detail) => ErrorView::TagWrite(detail@),
            AppError::Playback(detail) => ErrorView::Playback(detail@),
            AppError::NotFound => ErrorView::NotFound,
        }
    }
}

/// The views of a sequence of errors, in the same order.
pub open spec fn error_views(errors: Seq<AppError>) -> Seq<ErrorView> {
    errors.map_values(|e: AppError| e@)
}

/// The line shown to the user for an error.
pub open spec fn message_of(error: ErrorView) -> Seq<char> {
    match error {
        ErrorView::Io(detail) => "Failed to load songs: "@ + detail,
        ErrorView::TagWrite(detail) => "Failed to save metadata: "@ + detail,
        ErrorView::Playback(detail) => "Playback failed: "@ + detail,
        ErrorView::NotFound => "(EditWindow) Song not found"@,
    }
}

impl AppError {
    /// Renders the error as the line shown to the user.
    pub fn message(&self) -> (text: String)
        ensures
            text@ == message_of(self@),
    {
        match self {
            AppError::Io(detail) => String::from_str("Failed to load songs: ").concat(
                detail.as_str(),
            ),
            AppError::TagWrite(detail) => String::from_str("Failed to save metadata: ").concat(
                detail.as_str(),
            ),
            AppError::Playback(detail) => String::from_str("Playback failed: ").concat(
                detail.as_str(),
            ),
            AppError::NotFound => String::from_str("(EditWindow) Song not found"),
        }
    }
}

} // verus!
