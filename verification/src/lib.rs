//! Session logic of a voice transcriber: recording, playback and
//! transcription of microphone audio, driven as one explicit session state.
//!
//! The library holds what is decided; the devices, the network, the
//! credential store and the clock belong to the caller. The caller hands in
//! what happened (a chunk of audio, the tick of a timer, the answer to a
//! request) and is told what to do next.
//!
//! - [`config`]: the parameters of a session and the longest recording that
//!   they allow.
//! - [`state`]: the session and the operations that change it.
//! - [`controller`]: the commands of the user.
//! - [`audio`]: capture, playback, and the encodings of samples.
//! - [`transcription`]: the request for a transcript and the reading of the
//!   answer.
//! - [`credential`]: the validation of a new credential.
//! - [`remote`], [`cancel`], [`error`]: what these share.

pub mod audio;
pub mod cancel;
pub mod config;
pub mod controller;
pub mod credential;
pub mod error;
pub mod remote;
pub mod state;
pub mod transcription;
