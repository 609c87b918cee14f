//! The library's error type.
use vstd::prelude::*;

verus! {

/// Errors reported by the library; each carries a human-readable message.
#[derive(Debug, Clone)]
pub enum AppError {
    /// A translation service answered with an error or something unusable.
    Api(String),
    /// Screen capture or selection handling failed.
    Capture(String),
    /// Text from a helper program could not be parsed.
    Parse(String),
    /// An image could not be decoded or encoded.
    Image(String),
    /// Reading data failed.
    Io(String),
}

/// The mathematical view of an [`AppError`]: its variant and message text.
pub enum ErrorView {
    Api(Seq<char>),
    Capture(Seq<char>),
    Parse(Seq<char>),
    Image(Seq<char>),
    Io(Seq<char>),
}

impl View for AppError {
    type V = ErrorView;

    open spec fn view(&self) -> ErrorView {
        match self {
            AppError::Api(m) => ErrorView::Api(m@),
            AppError::Capture(m) => ErrorView::Capture(m@),
            AppError::Parse(m) => ErrorView::Parse(m@),
            AppError::Image(m) => ErrorView::Image(m@),
            AppError::Io(m) => ErrorView::Io(m@),
        }
    }
}

/// Result type used throughout the library.
pub type AppResult<T> = Result<T, AppError>;

/// The view of a result: the value on success, the error's view on failure.
pub open spec fn result_view<T>(r: AppResult<T>) -> Result<T, ErrorView> {
    match r {
        Ok(v) => Ok(v),
        Err(e) => Err(e@),
    }
}

} // verus!
