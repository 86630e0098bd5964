//! The commands of the user, turned into changes of the session and into
//! work for the caller.
//!
//! The user interface hands each command to [`update`] while it holds the
//! session, and then does what the returned effect says: it owns the
//! devices, the network and the credential store.

use crate::audio::player::{
    begin_playback, can_play_from, playback_nanos, playback_refusal, Playback,
};
use crate::audio::recorder::{
    begin_recording, can_record_from, recording_begun, RecordingStage, RecordingSupervisor,
};
use crate::audio::sample::samples_to_le_bytes;
use crate::credential::{validation_begun, KeyValidation, KeyValidationAction};
use crate::error::SessionError;
use crate::state::{
    moved_to, playback_stopped, recording_stopped, reset_session, session_invariant, AppStateEnum,
    AppStateView, StateManager,
};
use crate::transcription::{
    can_transcribe_from, transcription_refusal, transcription_request, TranscriptionRequest,
};
use tokio::sync::broadcast::Receiver;
use vstd::prelude::*;

verus! {

/// A command of the user.
#[derive(Debug)]
pub enum AppMsg {
    /// Start a recording, or stop the one that runs.
    Record,
    /// Play the recording, or stop the playback that runs.
    Play,
    /// Transcribe the recording.
    Transcribe,
    /// Drop the recording and the transcript.
    Reset,
    /// The interface was told of a new phase; the session is not concerned.
    UpdateState(AppStateEnum),
    /// Take on the given credential.
    SetApiKey(String),
    /// Give up the credential.
    RemoveApiKey,
}

/// What the caller does after a command.
pub enum Effect {
    /// Nothing.
    Nothing,
    /// Open the capture device and run the recording under `supervisor`
    /// until it ends; `cancel` is the receiving end of its cancel signal.
    RunRecorder { supervisor: RecordingSupervisor, cancel: Receiver<()> },
    /// Open the output device and play.
    RunPlayer(Playback),
    /// Send the request and hand in how it ended.
    SendTranscription(TranscriptionRequest),
    /// Carry on the validation with the given first step.
    ValidateKey { validation: KeyValidation, first: KeyValidationAction },
    /// Delete the key from the credential store and hand in how that ended.
    RemoveStoredKey,
    /// The command was refused; nothing changed.
    Rejected(SessionError),
}

/// What the record button says.
#[derive(Debug, Clone, Copy, PartialEq, Eq, Structural)]
pub enum RecordLabel {
    /// "Start Recording"
    Start,
    /// "Stop Recording"
    Stop,
    /// "Continue Recording"
    Continue,
    /// "Start New Recording"
    StartNew,
}

/// What the play button says.
#[derive(Debug, Clone, Copy, PartialEq, Eq, Structural)]
pub enum PlayLabel {
    /// "Play Recording"
    Play,
    /// "Stop Playback"
    Stop,
}

/// Which commands the interface offers, and under which labels.
#[derive(Debug, Clone, Copy, PartialEq, Eq, Structural)]
pub struct ButtonStates {
    pub record: bool,
    pub record_label: RecordLabel,
    pub transcribe: bool,
    pub play: bool,
    pub play_label: PlayLabel,
    pub copy: bool,
    pub reset: bool,
}

/// What the interface offers in `phase`.
///
/// While a pipeline or a request runs, only the command that stops it is
/// offered, if there is one. Idle offers recording alone. A recording at
/// rest can be extended, transcribed, played and reset; its transcript, once
/// there is one, can be copied, also while it plays.
pub open spec fn buttons_in(phase: AppStateEnum) -> ButtonStates {
    let at_rest: bool = phase == AppStateEnum::Recorded || phase == AppStateEnum::Transcribed;
    ButtonStates {
        record: phase == AppStateEnum::Idle || phase == AppStateEnum::Recording || at_rest,
        record_label: match phase {
            AppStateEnum::Recording => RecordLabel::Stop,
            AppStateEnum::Recorded => RecordLabel::Continue,
            AppStateEnum::Transcribed => RecordLabel::StartNew,
            _ => RecordLabel::Start,
        },
        transcribe: at_rest,
        play: phase == AppStateEnum::Playing || at_rest,
        play_label: if phase == AppStateEnum::Playing {
            PlayLabel::Stop
        } else {
            PlayLabel::Play
        },
        copy: phase == AppStateEnum::Transcribed || phase == AppStateEnum::Playing,
        reset: at_rest,
    }
}

/// A command that the interface offers is never refused for the phase: the
/// record button is offered only where [`update`] starts or stops a
/// recording, the play button only where it stops a playback or the phase
/// allows one, and the transcribe button only where the phase allows a
/// transcription.
pub proof fn lemma_offered_commands_fit_the_phase(phase: AppStateEnum)
    ensures
        buttons_in(phase).record ==> phase == AppStateEnum::Recording || can_record_from(phase),
        buttons_in(phase).play ==> phase == AppStateEnum::Playing || can_play_from(phase),
        buttons_in(phase).transcribe ==> can_transcribe_from(phase),
{
}

/// What the interface offers in `phase`.
pub fn button_states(phase: AppStateEnum) -> (buttons: ButtonStates)
    ensures
        buttons == buttons_in(phase),
{
    match phase {
        AppStateEnum::Idle => ButtonStates {
            record: true,
            record_label: RecordLabel::Start,
            transcribe: false,
            play: false,
            play_label: PlayLabel::Play,
            copy: false,
            reset: false,
        },
        AppStateEnum::Recording => ButtonStates {
            record: true,
            record_label: RecordLabel::Stop,
            transcribe: false,
            play: false,
            play_label: PlayLabel::Play,
            copy: false,
            reset: false,
        },
        AppStateEnum::Recorded => ButtonStates {
            record: true,
            record_label: RecordLabel::Continue,
            transcribe: true,
            play: true,
            play_label: PlayLabel::Play,
            copy: false,
            reset: true,
        },
        AppStateEnum::Transcribing => ButtonStates {
            record: false,
            record_label: RecordLabel::Start,
            transcribe: false,
            play: false,
            play_label: PlayLabel::Play,
            copy: false,
            reset: false,
        },
        AppStateEnum::Transcribed => ButtonStates {
            record: true,
            record_label: RecordLabel::StartNew,
            transcribe: true,
            play: true,
            play_label: PlayLabel::Play,
            copy: true,
            reset: true,
        },
        AppStateEnum::Playing => ButtonStates {
            record: false,
            record_label: RecordLabel::Start,
            transcribe: false,
            play: true,
            play_label: PlayLabel::Stop,
            copy: true,
            reset: false,
        },
    }
}

/// The session after the command `msg`.
///
/// `Record` and `Play` toggle: while the session records (plays), the
/// command stops that; otherwise it begins it, if the phase allows. A
/// command that is refused changes nothing, and the commands that concern
/// the credential change nothing by themselves.
pub open spec fn updated(session: AppStateView, msg: AppMsg) -> AppStateView {
    match msg {
        AppMsg::Record => if session.phase == AppStateEnum::Recording {
            recording_stopped(session)
        } else if can_record_from(session.phase) {
            recording_begun(session)
        } else {
            session
        },
        AppMsg::Play => if session.phase == AppStateEnum::Playing {
            playback_stopped(session)
        } else if playback_refusal(session) is None {
            moved_to(session, AppStateEnum::Playing)
        } else {
            session
        },
        AppMsg::Transcribe => if transcription_refusal(session) is None {
            moved_to(session, AppStateEnum::Transcribing)
        } else {
            session
        },
        AppMsg::Reset => reset_session(session),
        _ => session,
    }
}

/// What no command can do: touch the credential or the configuration, drop
/// the transcript other than by a reset, change the recorded samples other
/// than by clearing them in a reset or at the start of a recording from
/// idle, or break the session invariant.
pub proof fn lemma_commands_guard_the_session(session: AppStateView, msg: AppMsg)
    ensures
        ({
            let after: AppStateView = updated(session, msg);
            let cleared: bool = after.audio.len() == 0 && (msg is Reset || (msg is Record
                && session.phase == AppStateEnum::Idle));
            &&& after.credential == session.credential
            &&& after.config == session.config
            &&& after.transcript == session.transcript || (msg is Reset && after.transcript.len()
                == 0)
            &&& after.audio == session.audio || cleared
            &&& session_invariant(session) ==> session_invariant(after)
        }),
{
}

/// Carries out the command `msg` on the session and says what is left for
/// the caller to do. A command that is refused changes nothing and says why.
pub fn update(state: &mut StateManager, msg: AppMsg) -> (effect: Effect)
    requires
        old(state).wf(),
    ensures
        final(state).wf(),
        final(state)@ == updated(old(state)@, msg),
        effect is Rejected ==> *final(state) == *old(state),
        !(msg is Record || msg is Play || msg is Reset)
            ==> final(state).signal() == old(state).signal(),
        match msg {
            AppMsg::Record => if old(state)@.phase == AppStateEnum::Recording {
                effect is Nothing
            } else if can_record_from(old(state)@.phase) {
                &&& effect matches Effect::RunRecorder { supervisor, .. }
                &&& supervisor.stage() == RecordingStage::Recording
            } else {
                &&& effect matches Effect::Rejected(error)
                &&& error == SessionError::InvalidState
            },
            AppMsg::Play => if old(state)@.phase == AppStateEnum::Playing {
                effect is Nothing
            } else {
                match playback_refusal(old(state)@) {
                    Some(refusal) => {
                        &&& effect matches Effect::Rejected(error)
                        &&& error@ == refusal
                    },
                    None => {
                        &&& effect matches Effect::RunPlayer(playback)
                        &&& playback.audio@ == samples_to_le_bytes(old(state)@.audio)
                        &&& playback.duration_nanos == playback_nanos(old(state)@.audio.len())
                    },
                }
            },
            AppMsg::Transcribe => match transcription_refusal(old(state)@) {
                Some(refusal) => {
                    &&& effect matches Effect::Rejected(error)
                    &&& error@ == refusal
                },
                None => {
                    &&& effect matches Effect::SendTranscription(request)
                    &&& request@ == transcription_request(old(state)@)
                },
            },
            AppMsg::Reset => effect is Nothing,
            AppMsg::UpdateState(_) => effect is Nothing && *final(state) == *old(state),
            AppMsg::SetApiKey(key) => {
                &&& effect matches Effect::ValidateKey { validation, first }
                &&& validation_begun(key@, validation, first)
                &&& *final(state) == *old(state)
            },
            AppMsg::RemoveApiKey => effect is RemoveStoredKey && *final(state) == *old(state),
        },
{
    match msg {
        AppMsg::Record => {
            if state.is_recording() {
                state.stop_recording();
                Effect::Nothing
            } else {
                let mut supervisor: RecordingSupervisor = RecordingSupervisor::new();
                match begin_recording(state, &mut supervisor) {
                    Ok(cancel) => Effect::RunRecorder { supervisor, cancel },
                    Err(error) => Effect::Rejected(error),
                }
            }
        },
        AppMsg::Play => {
            if state.is_playing() {
                state.stop_playing();
                Effect::Nothing
            } else {
                match begin_playback(state) {
                    Ok(playback) => Effect::RunPlayer(playback),
                    Err(error) => Effect::Rejected(error),
                }
            }
        },
        AppMsg::Transcribe => match state.transcribe_audio() {
            Ok(request) => Effect::SendTranscription(request),
            Err(error) => Effect::Rejected(error),
        },
        AppMsg::Reset => {
            state.reset();
            Effect::Nothing
        },
        AppMsg::UpdateState(_) => Effect::Nothing,
        AppMsg::SetApiKey(key) => {
            let (validation, first) = KeyValidation::begin(key.as_str());
            Effect::ValidateKey { validation, first }
        },
        AppMsg::RemoveApiKey => Effect::RemoveStoredKey,
    }
}

} // verus!
