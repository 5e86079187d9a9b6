//! The crate-wide error taxonomy: transport failures, malformed input,
//! unknown resources, external-tool failures, and permit misuse.

use vstd::prelude::*;

verus! {

/// The ghost shape of a [`MediaError`], with messages as character
/// sequences.
pub enum ErrorView {
    Network { status: u16 },
    Parse { message: Seq<char> },
    NotFound { message: Seq<char> },
    ExternalTool { code: i32 },
    Concurrency,
}

/// An error of the media engine.
///
/// Transport failures carry the HTTP status; malformed manifests, pages or
/// fields are recoverable parse errors; unknown channels, invalid ids and
/// empty detail lists are not-found errors; a failed remux invocation
/// carries the tool's exit code; a permit bookkeeping violation is a
/// concurrency error and should not occur under correct use.
#[derive(Debug)]
pub enum MediaError {
    NetworkError { status: u16 },
    ParseError { message: String },
    NotFoundError { message: String },
    ExternalToolError { code: i32 },
    ConcurrencyError,
}

impl View for MediaError {
    type V = ErrorView;

    open spec fn view(&self) -> ErrorView {
        match self {
            MediaError::NetworkError { status } => ErrorView::Network { status: *status },
            MediaError::ParseError { message } => ErrorView::Parse { message: message@ },
            MediaError::NotFoundError { message } => ErrorView::NotFound { message: message@ },
            MediaError::ExternalToolError { code } => ErrorView::ExternalTool { code: *code },
            MediaError::ConcurrencyError => ErrorView::Concurrency,
        }
    }
}

impl MediaError {
    /// A recoverable parse error with the given message.
    pub fn parse_error(message: &str) -> (e: Self)
        ensures
            e@ matches ErrorView::Parse { message: m } && m == message@,
    {
        MediaError::ParseError { message: message.to_owned() }
    }

    /// A not-found error with the given message.
    pub fn not_found(message: &str) -> (e: Self)
        ensures
            e@ matches ErrorView::NotFound { message: m } && m == message@,
    {
        MediaError::NotFoundError { message: message.to_owned() }
    }

    /// A transport failure with the HTTP status that came back.
    pub fn network_error(status: u16) -> (e: Self)
        ensures
            e@ matches ErrorView::Network { status: st } && st == status,
    {
        MediaError::NetworkError { status }
    }
}

} // verus!
