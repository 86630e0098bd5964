//! The errors that session operations report.

use vstd::prelude::*;

verus! {

/// Why an operation on the session did not go through.
#[derive(Debug)]
pub enum SessionError {
    /// The capture device is unavailable or refuses the requested format.
    Device(String),
    /// The output device reported an error while playing.
    Playback(String),
    /// The request could not be sent, or no answer was received.
    Network,
    /// The transcription service answered with a status outside 200..=299.
    Transcription { status: u16, body: String },
    /// The operation needs recorded audio and the buffer is empty.
    EmptyBuffer,
    /// The operation is not allowed in the current phase.
    InvalidState,
    /// The credential store failed for a reason other than a missing entry.
    CredentialStore(String),
    /// Transcription was asked for while no credential is held.
    MissingCredential,
    /// The transcription service answered with a body that is not JSON.
    MalformedResponse,
    /// The audio container could not be produced.
    Encoding,
}

/// The mathematical content of a [`SessionError`].
pub enum SessionErrorView {
    Device(Seq<char>),
    Playback(Seq<char>),
    Network,
    Transcription { status: u16, body: Seq<char> },
    EmptyBuffer,
    InvalidState,
    CredentialStore(Seq<char>),
    MissingCredential,
    MalformedResponse,
    Encoding,
}

impl View for SessionError {
    type V = SessionErrorView;

    open spec fn view(&self) -> SessionErrorView {
        match *self {
            SessionError::Device(message) => SessionErrorView::Device(message@),
            SessionError::Playback(message) => SessionErrorView::Playback(message@),
            SessionError::Network => SessionErrorView::Network,
            SessionError::Transcription { status, body } => SessionErrorView::Transcription {
                status,
                body: body@,
            },
            SessionError::EmptyBuffer => SessionErrorView::EmptyBuffer,
            SessionError::InvalidState => SessionErrorView::InvalidState,
            SessionError::CredentialStore(message) => SessionErrorView::CredentialStore(message@),
            SessionError::MissingCredential => SessionErrorView::MissingCredential,
            SessionError::MalformedResponse => SessionErrorView::MalformedResponse,
            SessionError::Encoding => SessionErrorView::Encoding,
        }
    }
}

} // verus!
