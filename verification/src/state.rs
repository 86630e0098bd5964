//! The session state and the operations that change it.
//!
//! A session is one record: the phase, the recorded samples, the transcript,
//! the credential and the cancel signal of the live pipeline. Every change
//! goes through an operation of [`StateManager`]; each operation is one atomic
//! step, so a caller that shares the session between tasks holds its lock for
//! exactly one call.
//!
//! Contracts speak of a session through its view, [`AppStateView`]. The view
//! says whether a cancel signal is held; [`StateManager::signal`] says which
//! one, and an operation that has no business with the pipeline promises to
//! leave that value as it is.
//!
//! A sample is held as the bit pattern of an IEEE-754 binary32 number.

use crate::cancel::{fire, fresh_signal, SIGNAL_CAPACITY};
use crate::config::{option_text, unit_result, Config, ConfigView};
use crate::error::SessionError;
use tokio::sync::broadcast::{Receiver, Sender};
use vstd::prelude::*;

verus! {

/// The phase a session is in. Exactly one holds at any time.
#[derive(Debug, Clone, Copy, PartialEq, Eq, Structural)]
pub enum AppStateEnum {
    /// Nothing has been recorded since start or since the last reset.
    Idle,
    /// Audio is being captured.
    Recording,
    /// A recording is held and no transcript has been made of it.
    Recorded,
    /// A transcription request is under way.
    Transcribing,
    /// A transcript of the recording is held.
    Transcribed,
    /// The recording is being played back.
    Playing,
}

impl AppStateEnum {
    /// Whether a capture or playback pipeline is live in this phase.
    pub open spec fn is_active(self) -> bool {
        self == AppStateEnum::Recording || self == AppStateEnum::Playing
    }

    /// Whether a capture or playback pipeline is live in this phase.
    pub fn has_pipeline(self) -> (active: bool)
        ensures
            active == self.is_active(),
    {
        self == AppStateEnum::Recording || self == AppStateEnum::Playing
    }
}

/// The mathematical content of a session.
pub struct AppStateView {
    pub phase: AppStateEnum,
    /// The recorded samples, oldest first.
    pub audio: Seq<u32>,
    pub transcript: Seq<char>,
    pub credential: Option<Seq<char>>,
    /// Whether a cancel signal is held for the live pipeline. Which signal
    /// that is, [`StateManager::signal`] says.
    pub cancel_armed: bool,
    /// The phase in which the last transcription was asked for: the phase
    /// to which the session returns if the transcription fails. Idle until
    /// a transcription is asked for.
    pub resume_phase: AppStateEnum,
    pub config: ConfigView,
}

/// The session right after start: idle, with nothing recorded or transcribed,
/// no cancel signal, and the credential that the configuration brought.
pub open spec fn initial_session(config: ConfigView) -> AppStateView {
    AppStateView {
        phase: AppStateEnum::Idle,
        audio: Seq::empty(),
        transcript: Seq::empty(),
        credential: config.api_key,
        cancel_armed: false,
        resume_phase: AppStateEnum::Idle,
        config,
    }
}

/// What holds of every session: a cancel signal is held exactly while a
/// pipeline is live, and the configuration is valid.
pub open spec fn session_invariant(session: AppStateView) -> bool {
    &&& session.cancel_armed == session.phase.is_active()
    &&& session.config.valid()
}

/// The session after a move to `phase`: the cancel signal of a pipeline that
/// is left behind is consumed, and entering a live phase arms a fresh one.
/// A move into the transcribing phase remembers the phase that it leaves.
pub open spec fn moved_to(session: AppStateView, phase: AppStateEnum) -> AppStateView {
    AppStateView {
        phase,
        cancel_armed: phase.is_active(),
        resume_phase: if phase == AppStateEnum::Transcribing && session.phase
            != AppStateEnum::Transcribing {
            session.phase
        } else {
            session.resume_phase
        },
        ..session
    }
}

/// The session after a request to stop recording: recorded if it was
/// recording, else as before.
pub open spec fn recording_stopped(session: AppStateView) -> AppStateView {
    if session.phase == AppStateEnum::Recording {
        moved_to(session, AppStateEnum::Recorded)
    } else {
        session
    }
}

/// The phase that holds a recording at rest: transcribed if a transcript is
/// held, else recorded.
pub open spec fn resting_phase(session: AppStateView) -> AppStateEnum {
    if session.transcript.len() == 0 {
        AppStateEnum::Recorded
    } else {
        AppStateEnum::Transcribed
    }
}

/// The session after a request to stop playback: at rest if it was playing,
/// else as before.
pub open spec fn playback_stopped(session: AppStateView) -> AppStateView {
    if session.phase == AppStateEnum::Playing {
        moved_to(session, resting_phase(session))
    } else {
        session
    }
}

/// The session after a reset: idle, with nothing recorded or transcribed.
/// Credential and configuration stay.
pub open spec fn reset_session(session: AppStateView) -> AppStateView {
    AppStateView {
        phase: AppStateEnum::Idle,
        audio: Seq::empty(),
        transcript: Seq::empty(),
        cancel_armed: false,
        ..session
    }
}

/// The session after `chunk` was appended to the recorded samples.
pub open spec fn appended(session: AppStateView, chunk: Seq<u32>) -> AppStateView {
    AppStateView { audio: session.audio + chunk, ..session }
}

/// The session after its credential became `credential`, in the session and
/// in its configuration alike.
pub open spec fn credential_replaced(
    session: AppStateView,
    credential: Option<Seq<char>>,
) -> AppStateView {
    AppStateView {
        credential,
        config: ConfigView { api_key: credential, ..session.config },
        ..session
    }
}

/// The session after each of `chunks` was appended in turn.
pub open spec fn appended_all(session: AppStateView, chunks: Seq<Seq<u32>>) -> AppStateView
    decreases chunks.len(),
{
    if chunks.len() == 0 {
        session
    } else {
        appended(appended_all(session, chunks.drop_last()), chunks.last())
    }
}

/// Appending chunks one after another leaves the recorded samples followed
/// by the chunks in the order in which they came, and nothing else changed.
pub proof fn lemma_appends_concatenate(session: AppStateView, chunks: Seq<Seq<u32>>)
    ensures
        appended_all(session, chunks) == (AppStateView {
            audio: session.audio + chunks.flatten(),
            ..session
        }),
    decreases chunks.len(),
{
    chunks.lemma_flatten_and_flatten_alt_are_equivalent();
    if chunks.len() == 0 {
        assert(session.audio + chunks.flatten() =~= session.audio);
    } else {
        let earlier: Seq<Seq<u32>> = chunks.drop_last();
        lemma_appends_concatenate(session, earlier);
        earlier.lemma_flatten_and_flatten_alt_are_equivalent();
        assert(chunks.flatten_alt() == earlier.flatten_alt() + chunks.last());
        assert(session.audio + earlier.flatten() + chunks.last() =~= session.audio + (
        earlier.flatten() + chunks.last()));
    }
}

/// A chunk that is appended around a stop of the recording is kept, whether
/// the stop comes just before it or just after it.
pub proof fn lemma_stop_keeps_chunk(session: AppStateView, chunk: Seq<u32>)
    ensures
        appended(recording_stopped(session), chunk) == recording_stopped(appended(session, chunk)),
        appended(recording_stopped(session), chunk).audio == session.audio + chunk,
{
}

/// The record behind a [`StateManager`].
pub struct AppState {
    state: AppStateEnum,
    transcribed_text: String,
    api_key: Option<String>,
    audio_data: Vec<u32>,
    recording_stop_sender: Option<Sender<()>>,
    transcribing_from: AppStateEnum,
    config: Config,
}

impl View for AppState {
    type V = AppStateView;

    closed spec fn view(&self) -> AppStateView {
        AppStateView {
            phase: self.state,
            audio: self.audio_data@,
            transcript: self.transcribed_text@,
            credential: option_text(self.api_key),
            cancel_armed: self.recording_stop_sender is Some,
            resume_phase: self.transcribing_from,
            config: self.config@,
        }
    }
}

impl AppState {
    /// A fresh session record for `config`.
    pub fn new(config: Config) -> (state: AppState)
        ensures
            state@ == initial_session(config@),
    {
        let api_key: Option<String> = match &config.api_key {
            Some(key) => Some(key.clone()),
            None => None,
        };
        AppState {
            state: AppStateEnum::Idle,
            transcribed_text: String::new(),
            api_key,
            audio_data: Vec::new(),
            recording_stop_sender: None,
            transcribing_from: AppStateEnum::Idle,
            config,
        }
    }
}

/// The handle through which a session is read and changed.
pub struct StateManager {
    state: AppState,
}

impl View for StateManager {
    type V = AppStateView;

    closed spec fn view(&self) -> AppStateView {
        self.state@
    }
}

impl StateManager {
    /// Whether the session invariant holds.
    pub open spec fn wf(&self) -> bool {
        session_invariant(self@)
    }

    /// The sending end of the cancel signal that the session holds, if it
    /// holds one. An operation that keeps this value has neither fired the
    /// signal nor put another in its place.
    pub closed spec fn signal(&self) -> Option<Sender<()>> {
        self.state.recording_stop_sender
    }

    /// The view says that a cancel signal is held exactly when one is.
    pub proof fn lemma_signal_in_view(&self)
        ensures
            self@.cancel_armed == (self.signal() is Some),
    {
    }

    /// Whether the session invariant holds.
    pub fn is_well_formed(&self) -> (well_formed: bool)
        ensures
            well_formed == self.wf(),
    {
        let armed: bool = self.state.recording_stop_sender.is_some();
        armed == self.state.state.has_pipeline() && self.state.config.is_valid()
    }

    /// A session for `config`, in its initial state.
    pub fn new(config: Config) -> (manager: StateManager)
        requires
            config@.valid(),
        ensures
            manager@ == initial_session(config@),
            manager.wf(),
    {
        StateManager { state: AppState::new(config) }
    }

    /// Consumes the cancel signal, if one is held: fires it and drops it.
    fn consume_signal(&mut self)
        ensures
            final(self)@ == (AppStateView { cancel_armed: false, ..old(self)@ }),
            old(self).signal() is None ==> *final(self) == *old(self),
    {
        match self.state.recording_stop_sender.take() {
            Some(sender) => fire(sender),
            None => {},
        }
    }

    /// Arms a fresh cancel signal in place of the one held, which is consumed,
    /// and returns its receiving end.
    fn arm_signal(&mut self) -> (receiver: Receiver<()>)
        ensures
            final(self)@ == (AppStateView { cancel_armed: true, ..old(self)@ }),
    {
        self.consume_signal();
        let (sender, receiver) = fresh_signal(SIGNAL_CAPACITY);
        self.state.recording_stop_sender = Some(sender);
        receiver
    }

    /// The credential that the session holds, if any.
    pub fn get_api_key(&self) -> (key: Option<String>)
        ensures
            option_text(key) == self@.credential,
    {
        match &self.state.api_key {
            Some(key) => Some(key.clone()),
            None => None,
        }
    }

    /// Replaces the credential that the session holds. The configuration is
    /// not touched.
    pub fn set_api_key(&mut self, key: Option<String>)
        ensures
            final(self)@ == (AppStateView { credential: option_text(key), ..old(self)@ }),
            final(self).signal() == old(self).signal(),
    {
        self.state.api_key = key;
    }

    /// Replaces the credential, in the session and in its configuration
    /// alike.
    pub(crate) fn replace_credential(&mut self, key: Option<String>)
        requires
            old(self).wf(),
        ensures
            final(self).wf(),
            final(self)@ == credential_replaced(old(self)@, option_text(key)),
            final(self).signal() == old(self).signal(),
    {
        self.state.config.api_key = match &key {
            Some(key) => Some(key.clone()),
            None => None,
        };
        self.state.api_key = key;
    }

    /// Whether the credential store holds a key, given what a lookup in it
    /// has brought.
    pub fn has_api_key(&self, lookup: &Result<Option<String>, SessionError>) -> (held: bool)
        ensures
            held == (*lookup matches Ok(Some(_))),
    {
        match lookup {
            Ok(Some(_)) => true,
            _ => false,
        }
    }

    /// Forgets the credential once the credential store is rid of it: given
    /// that the removal went through, the session and its configuration hold
    /// no credential. A failed removal is handed back and changes nothing.
    pub fn remove_api_key(&mut self, removed: Result<(), SessionError>) -> (done: Result<
        (),
        SessionError,
    >)
        requires
            old(self).wf(),
        ensures
            final(self).wf(),
            unit_result(done) == unit_result(removed),
            removed is Ok ==> final(self)@ == credential_replaced(old(self)@, None),
            final(self).signal() == old(self).signal(),
            removed is Err ==> *final(self) == *old(self),
    {
        match removed {
            Ok(_) => {
                self.replace_credential(None);
                Ok(())
            },
            Err(error) => Err(error),
        }
    }

    /// Whether the session is in the recording phase.
    pub fn is_recording(&self) -> (recording: bool)
        ensures
            recording == (self@.phase == AppStateEnum::Recording),
    {
        self.state.state == AppStateEnum::Recording
    }

    /// Same as [`StateManager::is_recording`].
    pub fn is_recording_sync(&self) -> (recording: bool)
        ensures
            recording == (self@.phase == AppStateEnum::Recording),
    {
        self.is_recording()
    }

    /// The transcript; empty until a transcription has succeeded.
    pub fn get_transcribed_text(&self) -> (text: String)
        ensures
            text@ == self@.transcript,
    {
        self.state.transcribed_text.clone()
    }

    /// Replaces the transcript.
    pub fn set_transcribed_text(&mut self, text: String)
        ensures
            final(self)@ == (AppStateView { transcript: text@, ..old(self)@ }),
            final(self).signal() == old(self).signal(),
    {
        self.state.transcribed_text = text;
    }

    /// A snapshot of the recorded samples.
    pub fn get_audio_data(&self) -> (samples: Vec<u32>)
        ensures
            samples@ == self@.audio,
    {
        self.state.audio_data.clone()
    }

    /// Replaces the recorded samples.
    pub fn set_audio_data(&mut self, data: Vec<u32>)
        ensures
            final(self)@ == (AppStateView { audio: data@, ..old(self)@ }),
            final(self).signal() == old(self).signal(),
    {
        self.state.audio_data = data;
    }

    /// Drops the recorded samples.
    pub fn clear_audio_data(&mut self)
        ensures
            final(self)@ == (AppStateView { audio: Seq::empty(), ..old(self)@ }),
            final(self).signal() == old(self).signal(),
    {
        self.state.audio_data.clear();
    }

    /// Appends `data` to the recorded samples, whatever the phase: a chunk
    /// that was on its way when recording stopped is still kept.
    pub fn append_audio_data(&mut self, data: &[u32])
        ensures
            final(self)@ == appended(old(self)@, data@),
            final(self).signal() == old(self).signal(),
    {
        let ghost before: Seq<u32> = self.state.audio_data@;
        self.state.audio_data.extend_from_slice(data);
        assert(self.state.audio_data@ =~= before + data@);
    }

    /// A copy of the configuration.
    pub fn get_config(&self) -> (config: Config)
        ensures
            config@ == self@.config,
    {
        self.state.config.clone()
    }

    /// The phase in which the last transcription was asked for.
    pub fn get_resume_phase(&self) -> (phase: AppStateEnum)
        ensures
            phase == self@.resume_phase,
    {
        self.state.transcribing_from
    }

    /// The phase of the session.
    pub fn get_app_state(&self) -> (phase: AppStateEnum)
        ensures
            phase == self@.phase,
    {
        self.state.state
    }

    /// Moves the session to `new_state`. A move within the same phase changes
    /// nothing. Otherwise the cancel signal of the pipeline that is left
    /// behind is fired, and a fresh one is armed if `new_state` has a live
    /// pipeline. A move into the transcribing phase remembers the phase that
    /// it leaves.
    pub fn set_app_state(&mut self, new_state: AppStateEnum)
        requires
            old(self).wf(),
        ensures
            final(self).wf(),
            final(self)@ == moved_to(old(self)@, new_state),
            new_state == old(self)@.phase ==> *final(self) == *old(self),
    {
        if new_state != self.state.state {
            self.consume_signal();
            if new_state.has_pipeline() {
                let _ = self.arm_signal();
            }
            if new_state == AppStateEnum::Transcribing {
                self.state.transcribing_from = self.state.state;
            }
            self.state.state = new_state;
        }
    }

    /// Enters the recording phase with a fresh cancel signal and returns the
    /// receiving end of that signal. A signal held before is fired. The phase
    /// is not asked for here, and the recorded samples stay:
    /// [`begin_recording`](crate::audio::recorder::begin_recording) is the
    /// checked way in.
    pub fn start_recording(&mut self) -> (receiver: Receiver<()>)
        requires
            old(self).wf(),
        ensures
            final(self).wf(),
            final(self)@ == moved_to(old(self)@, AppStateEnum::Recording),
    {
        let receiver: Receiver<()> = self.arm_signal();
        self.state.state = AppStateEnum::Recording;
        receiver
    }

    /// Ends the recording phase: fires the cancel signal and leaves the
    /// session recorded. When the session is not recording, nothing changes.
    pub fn stop_recording(&mut self)
        requires
            old(self).wf(),
        ensures
            final(self).wf(),
            final(self)@ == recording_stopped(old(self)@),
            old(self)@.phase != AppStateEnum::Recording ==> *final(self) == *old(self),
    {
        if self.state.state == AppStateEnum::Recording {
            self.consume_signal();
            self.state.state = AppStateEnum::Recorded;
        }
    }

    /// Enters the recording phase if `is_recording`, and leaves it as
    /// [`StateManager::stop_recording`] does if not.
    pub fn set_recording(&mut self, is_recording: bool)
        requires
            old(self).wf(),
        ensures
            final(self).wf(),
            final(self)@ == if is_recording {
                moved_to(old(self)@, AppStateEnum::Recording)
            } else {
                recording_stopped(old(self)@)
            },
    {
        if is_recording {
            self.set_app_state(AppStateEnum::Recording);
        } else {
            self.stop_recording();
        }
    }

    /// Resets the session: drops the recording and the transcript and
    /// returns to idle. The cancel signal of a live pipeline is fired.
    pub fn reset(&mut self)
        requires
            old(self).wf(),
        ensures
            final(self).wf(),
            final(self)@ == reset_session(old(self)@),
    {
        self.clear_audio_data();
        self.set_transcribed_text(String::new());
        self.set_app_state(AppStateEnum::Idle);
    }

    /// Whether the session is in the playing phase.
    pub fn is_playing(&self) -> (playing: bool)
        ensures
            playing == (self@.phase == AppStateEnum::Playing),
    {
        self.state.state == AppStateEnum::Playing
    }

    /// Enters the playing phase with a fresh cancel signal and returns the
    /// receiving end of that signal. A signal held before is fired. The phase
    /// is not asked for here:
    /// [`begin_playback`](crate::audio::player::begin_playback) is the
    /// checked way in.
    pub fn start_playing(&mut self) -> (receiver: Receiver<()>)
        requires
            old(self).wf(),
        ensures
            final(self).wf(),
            final(self)@ == moved_to(old(self)@, AppStateEnum::Playing),
    {
        let receiver: Receiver<()> = self.arm_signal();
        self.state.state = AppStateEnum::Playing;
        receiver
    }

    /// Ends the playing phase: fires the cancel signal and leaves the session
    /// transcribed if it holds a transcript, else recorded. When the session
    /// is not playing, nothing changes.
    pub fn stop_playing(&mut self)
        requires
            old(self).wf(),
        ensures
            final(self).wf(),
            final(self)@ == playback_stopped(old(self)@),
            old(self)@.phase != AppStateEnum::Playing ==> *final(self) == *old(self),
    {
        if self.state.state == AppStateEnum::Playing {
            self.consume_signal();
            if self.state.transcribed_text.as_str().is_empty() {
                self.state.state = AppStateEnum::Recorded;
            } else {
                self.state.state = AppStateEnum::Transcribed;
            }
        }
    }
}

} // verus!
