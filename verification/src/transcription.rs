//! Transcription of the recording by the remote service.
//!
//! A transcription is one request: [`StateManager::transcribe_audio`] says
//! what to send, the caller sends it, and
//! [`StateManager::complete_transcription`] takes in how it ended. Nothing is
//! retried here; a failed request leaves the transcript as it was.

use crate::audio::wav::{encode_recording, recording_container, MAX_WAV_SAMPLES};
use crate::config::{option_text, Config};
use crate::error::{SessionError, SessionErrorView};
use crate::remote::{bearer, bearer_header, is_success, status_is_success, HttpOutcome, HttpOutcomeView};
use crate::state::{moved_to, session_invariant, AppStateEnum, AppStateView, StateManager};
use vstd::prelude::*;

verus! {

/// The error type of `serde_json`, carried as an opaque value.
#[verifier::external_type_specification]
#[verifier::external_body]
pub struct ExJsonError(serde_json::Error);

/// What `serde_json` finds under `key` in the JSON text `document`: nothing
/// at all when its parser rejects `document`; else the string under `key`,
/// if `document` is an object that has a string there.
pub uninterp spec fn json_string_member(document: Seq<char>, key: Seq<char>) -> Option<
    Option<Seq<char>>,
>;

/// Parses `document` with `serde_json::from_str` into a `serde_json::Value`,
/// indexes the value by `key` and reads the result with `Value::as_str`.
///
/// Indexing by a string yields the null value unless the value is an object
/// with that key, and `as_str` yields a string only for a string value; so
/// the result is the string member under `key`, if there is one. It is a
/// function of the two texts, named [`json_string_member`]; the parser's
/// error stands for a document that it rejects.
#[verifier::external_body]
pub(crate) fn parse_string_member(document: &str, key: &str) -> (parsed: Result<
    Option<String>,
    serde_json::Error,
>)
    ensures
        json_string_member(document@, key@) == match parsed {
            Ok(member) => Some(option_text(member)),
            Err(_) => None::<Option<Seq<char>>>,
        },
{
    let value: serde_json::Value = serde_json::from_str(document)?;
    Ok(value[key].as_str().map(|text| text.to_string()))
}

/// What is sent to the transcription service: one multi-part form, posted to
/// `url` with the header `Authorization: authorization`. The form holds the
/// file `audio` under the name `file_name` with the type `mime_type`, and
/// four text fields.
#[derive(Debug)]
pub struct TranscriptionRequest {
    pub url: String,
    pub authorization: String,
    pub file_name: String,
    pub mime_type: String,
    pub audio: Vec<u8>,
    pub model: String,
    pub temperature: String,
    pub response_format: String,
    pub language: String,
}

/// The mathematical content of a [`TranscriptionRequest`].
pub struct TranscriptionRequestView {
    pub url: Seq<char>,
    pub authorization: Seq<char>,
    pub file_name: Seq<char>,
    pub mime_type: Seq<char>,
    pub audio: Seq<u8>,
    pub model: Seq<char>,
    pub temperature: Seq<char>,
    pub response_format: Seq<char>,
    pub language: Seq<char>,
}

impl View for TranscriptionRequest {
    type V = TranscriptionRequestView;

    open spec fn view(&self) -> TranscriptionRequestView {
        TranscriptionRequestView {
            url: self.url@,
            authorization: self.authorization@,
            file_name: self.file_name@,
            mime_type: self.mime_type@,
            audio: self.audio@,
            model: self.model@,
            temperature: self.temperature@,
            response_format: self.response_format@,
            language: self.language@,
        }
    }
}

/// The text of a transcription result, and the content of its error.
pub open spec fn result_text(result: Result<String, SessionError>) -> Result<
    Seq<char>,
    SessionErrorView,
> {
    match result {
        Ok(text) => Ok(text@),
        Err(error) => Err(error@),
    }
}

/// Whether a transcription may be asked for in `phase`: only of a recording
/// at rest.
pub open spec fn can_transcribe_from(phase: AppStateEnum) -> bool {
    phase == AppStateEnum::Recorded || phase == AppStateEnum::Transcribed
}

/// Why a transcription of `session` is refused before anything is sent, if
/// it is: no credential is held, nothing is recorded, the phase does not
/// allow it, or the recording is too long for a container, in this order.
pub open spec fn transcription_refusal(session: AppStateView) -> Option<SessionErrorView> {
    if session.credential is None {
        Some(SessionErrorView::MissingCredential)
    } else if session.audio.len() == 0 {
        Some(SessionErrorView::EmptyBuffer)
    } else if !can_transcribe_from(session.phase) {
        Some(SessionErrorView::InvalidState)
    } else if session.audio.len() > MAX_WAV_SAMPLES {
        Some(SessionErrorView::Encoding)
    } else {
        None
    }
}

/// The request for a transcription of `session`: its recording as a
/// container, for the configured endpoint, authorized by its credential.
pub open spec fn transcription_request(session: AppStateView) -> TranscriptionRequestView {
    TranscriptionRequestView {
        url: session.config.api_endpoint,
        authorization: bearer_header(session.credential.unwrap()),
        file_name: "audio.wav"@,
        mime_type: "audio/wav"@,
        audio: recording_container(session.audio),
        model: "distil-whisper-large-v3-en"@,
        temperature: "0"@,
        response_format: "json"@,
        language: "en"@,
    }
}

/// The transcript in a parsed answer: the string under `text`, or the empty
/// text when there is none; an answer that is not JSON is malformed.
pub open spec fn transcript_in(parsed: Option<Option<Seq<char>>>) -> Result<
    Seq<char>,
    SessionErrorView,
> {
    match parsed {
        Some(Some(text)) => Ok(text),
        Some(None) => Ok(Seq::empty()),
        None => Err(SessionErrorView::MalformedResponse),
    }
}

/// What a transcription request that ended with `outcome` has brought: the
/// transcript of a successful answer; the transcription error, with status
/// and body, of any other answer; the network error when there was no
/// answer.
pub open spec fn transcription_of(outcome: HttpOutcomeView) -> Result<Seq<char>, SessionErrorView> {
    match outcome {
        HttpOutcomeView::Unreachable => Err(SessionErrorView::Network),
        HttpOutcomeView::Response { status, body } => if status_is_success(status) {
            transcript_in(json_string_member(body, "text"@))
        } else {
            Err(SessionErrorView::Transcription { status, body })
        },
    }
}

/// The session after a transcription request ended with `result`: transcribed,
/// with the new transcript, if there is one; else back in the phase in which
/// the transcription was asked for, with the transcript it had.
pub open spec fn transcription_completed(
    session: AppStateView,
    result: Result<Seq<char>, SessionErrorView>,
) -> AppStateView {
    match result {
        Ok(text) => AppStateView { phase: AppStateEnum::Transcribed, transcript: text, ..session },
        Err(_) => moved_to(session, session.resume_phase),
    }
}

/// A failed transcription leaves the session as the request found it: the
/// phase, the recorded samples, the transcript, the credential and the
/// configuration are those from before [`StateManager::transcribe_audio`],
/// whatever the failure. The one trace is the memory of the phase in which
/// the transcription was asked for.
pub proof fn lemma_failed_transcription_restores(session: AppStateView, failure: SessionErrorView)
    requires
        session_invariant(session),
        transcription_refusal(session) is None,
    ensures
        transcription_completed(
            moved_to(session, AppStateEnum::Transcribing),
            Err(failure),
        ) == (AppStateView { resume_phase: session.phase, ..session }),
{
}

/// The transcript in a parsed answer.
pub fn transcript_from_member(parsed: Result<Option<String>, serde_json::Error>) -> (transcript:
    Result<String, SessionError>)
    ensures
        result_text(transcript) == transcript_in(
            match parsed {
                Ok(member) => Some(option_text(member)),
                Err(_) => None,
            },
        ),
{
    match parsed {
        Ok(Some(text)) => Ok(text),
        Ok(None) => Ok(String::new()),
        Err(_) => Err(SessionError::MalformedResponse),
    }
}

/// What a transcription request that ended with `outcome` has brought.
pub fn read_transcription(outcome: HttpOutcome) -> (transcript: Result<String, SessionError>)
    ensures
        result_text(transcript) == transcription_of(outcome@),
{
    match outcome {
        HttpOutcome::Unreachable => Err(SessionError::Network),
        HttpOutcome::Response { status, body } => {
            if is_success(status) {
                transcript_from_member(parse_string_member(body.as_str(), "text"))
            } else {
                Err(SessionError::Transcription { status, body })
            }
        },
    }
}

impl StateManager {
    /// Prepares the transcription of the recording: checks that one may be
    /// asked for, encodes the recording and says what to send. The session is
    /// then transcribing, and remembers the phase that it was in. A refused
    /// request changes nothing.
    pub fn transcribe_audio(&mut self) -> (request: Result<TranscriptionRequest, SessionError>)
        requires
            old(self).wf(),
        ensures
            final(self).wf(),
            match transcription_refusal(old(self)@) {
                Some(refusal) => {
                    &&& request matches Err(error)
                    &&& error@ == refusal
                    &&& *final(self) == *old(self)
                },
                None => {
                    &&& request matches Ok(sent)
                    &&& sent@ == transcription_request(old(self)@)
                    &&& final(self)@ == moved_to(old(self)@, AppStateEnum::Transcribing)
                    &&& final(self)@.resume_phase == old(self)@.phase
                    &&& final(self).signal() == old(self).signal()
                },
            },
    {
        proof {
            self.lemma_signal_in_view();
        }
        let key: String = match self.get_api_key() {
            Some(key) => key,
            None => {
                return Err(SessionError::MissingCredential);
            },
        };
        let samples: Vec<u32> = self.get_audio_data();
        if samples.len() == 0 {
            return Err(SessionError::EmptyBuffer);
        }
        let phase: AppStateEnum = self.get_app_state();
        if phase != AppStateEnum::Recorded && phase != AppStateEnum::Transcribed {
            return Err(SessionError::InvalidState);
        }
        let audio: Vec<u8> = match encode_recording(samples.as_slice()) {
            Ok(audio) => audio,
            Err(error) => {
                return Err(error);
            },
        };
        let config: Config = self.get_config();
        self.set_app_state(AppStateEnum::Transcribing);
        proof {
            self.lemma_signal_in_view();
        }
        Ok(
            TranscriptionRequest {
                url: config.api_endpoint,
                authorization: bearer(key.as_str()),
                file_name: "audio.wav".to_string(),
                mime_type: "audio/wav".to_string(),
                audio,
                model: "distil-whisper-large-v3-en".to_string(),
                temperature: "0".to_string(),
                response_format: "json".to_string(),
                language: "en".to_string(),
            },
        )
    }

    /// Takes in how the transcription request ended. A transcript is stored
    /// and the session is transcribed; a failure is handed back and the
    /// session is back in the phase in which the transcription was asked
    /// for, with the transcript it had. When the session is not transcribing,
    /// the outcome comes too late: it is refused as an invalid state and
    /// nothing changes.
    pub fn complete_transcription(&mut self, outcome: HttpOutcome) -> (transcript: Result<
        String,
        SessionError,
    >)
        requires
            old(self).wf(),
        ensures
            final(self).wf(),
            old(self)@.phase != AppStateEnum::Transcribing ==> {
                &&& transcript matches Err(error)
                &&& error@ == SessionErrorView::InvalidState
                &&& *final(self) == *old(self)
            },
            old(self)@.phase == AppStateEnum::Transcribing ==> {
                &&& result_text(transcript) == transcription_of(outcome@)
                &&& final(self)@ == transcription_completed(old(self)@, transcription_of(outcome@))
                &&& transcript is Err ==> final(self)@.phase == old(self)@.resume_phase
                    && final(self)@.transcript == old(self)@.transcript
                &&& transcript is Ok || !old(self)@.resume_phase.is_active()
                    ==> final(self).signal() == old(self).signal()
            },
    {
        proof {
            self.lemma_signal_in_view();
        }
        if self.get_app_state() != AppStateEnum::Transcribing {
            return Err(SessionError::InvalidState);
        }
        match read_transcription(outcome) {
            Ok(text) => {
                self.set_transcribed_text(text.clone());
                self.set_app_state(AppStateEnum::Transcribed);
                proof {
                    self.lemma_signal_in_view();
                }
                Ok(text)
            },
            Err(error) => {
                let back: AppStateEnum = self.get_resume_phase();
                self.set_app_state(back);
                proof {
                    self.lemma_signal_in_view();
                }
                Err(error)
            },
        }
    }
}

} // verus!
