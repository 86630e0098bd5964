//! Playback of the recorded samples.
//!
//! The output device belongs to the caller. [`begin_playback`] takes the
//! snapshot that is played, and [`play_audio`] decides what follows each
//! thing that happens while it plays.

use crate::audio::sample::{encode_samples, samples_to_le_bytes};
use crate::config::NANOS_PER_SECOND;
use crate::error::{SessionError, SessionErrorView};
use crate::state::{moved_to, playback_stopped, AppStateEnum, AppStateView, StateManager};
use tokio::sync::broadcast::Receiver;
use vstd::arithmetic::div_mod::lemma_div_is_ordered;
use vstd::prelude::*;

verus! {

/// Sample rate at which a recording is played.
pub const PLAYBACK_SAMPLE_RATE: u32 = 44100;

/// What is handed to the output device: the snapshot of the recording as
/// bytes, pushed as one unit, how long it plays, and the receiving end of
/// the cancel signal.
#[derive(Debug)]
pub struct Playback {
    /// The samples, four bytes each, least significant byte first.
    pub audio: Vec<u8>,
    pub duration_nanos: u128,
    pub cancel: Receiver<()>,
}

/// What can happen while a recording plays.
#[derive(Debug)]
pub enum PlaybackEvent {
    /// The output device reported the end of the stream.
    EndOfStream,
    /// The output device reported an error.
    DeviceError(String),
    /// The cancel signal was received, or its sender is gone.
    StopSignal,
    /// The poll interval passed with nothing from the device.
    Tick,
}

/// How a playback ended.
#[derive(Debug)]
pub enum PlaybackOutcome {
    /// The whole snapshot was played.
    Completed,
    /// It was stopped from outside.
    Cancelled,
    /// The device failed.
    Failed(SessionError),
}

/// What the caller does after an event.
#[derive(Debug)]
pub enum PlaybackAction {
    /// Keep the pipeline running and wait for the next event.
    Continue,
    /// Tear the pipeline down; the playback is over.
    Finish(PlaybackOutcome),
}

/// How long `samples` samples play, in whole nanoseconds.
pub open spec fn playback_nanos(samples: nat) -> int {
    samples * NANOS_PER_SECOND / (PLAYBACK_SAMPLE_RATE as int)
}

/// Whether a playback may begin in `phase`: only of a recording at rest.
pub open spec fn can_play_from(phase: AppStateEnum) -> bool {
    phase == AppStateEnum::Recorded || phase == AppStateEnum::Transcribed
}

/// Why a playback of `session` is refused, if it is: nothing is recorded,
/// or the phase does not allow it, in this order.
pub open spec fn playback_refusal(session: AppStateView) -> Option<SessionErrorView> {
    if session.audio.len() == 0 {
        Some(SessionErrorView::EmptyBuffer)
    } else if !can_play_from(session.phase) {
        Some(SessionErrorView::InvalidState)
    } else {
        None
    }
}

/// An empty recording is never played: its playback is refused with the
/// empty-buffer error, whatever the phase, and a playback that is not
/// refused lasts longer than nothing.
pub proof fn lemma_empty_recording_never_plays(session: AppStateView)
    ensures
        session.audio.len() == 0 <==> playback_refusal(session) == Some(
            SessionErrorView::EmptyBuffer,
        ),
        playback_refusal(session) is None ==> playback_nanos(session.audio.len()) > 0,
{
    if session.audio.len() > 0 {
        lemma_div_is_ordered(
            NANOS_PER_SECOND as int,
            session.audio.len() * NANOS_PER_SECOND,
            PLAYBACK_SAMPLE_RATE as int,
        );
    }
}

/// Whether `event` ends the playback of `session`.
pub open spec fn ends_playback(session: AppStateView, event: PlaybackEvent) -> bool {
    match event {
        PlaybackEvent::Tick => session.phase != AppStateEnum::Playing,
        _ => true,
    }
}

/// How the playback ends on `event`, given that it does.
pub open spec fn playback_outcome(event: PlaybackEvent) -> PlaybackOutcome {
    match event {
        PlaybackEvent::EndOfStream => PlaybackOutcome::Completed,
        PlaybackEvent::DeviceError(message) => PlaybackOutcome::Failed(
            SessionError::Playback(message),
        ),
        PlaybackEvent::StopSignal => PlaybackOutcome::Cancelled,
        PlaybackEvent::Tick => PlaybackOutcome::Cancelled,
    }
}

/// How long `samples` samples play, in whole nanoseconds.
pub fn playback_duration(samples: usize) -> (nanos: u128)
    ensures
        nanos == playback_nanos(samples as nat),
{
    samples as u128 * NANOS_PER_SECOND / (PLAYBACK_SAMPLE_RATE as u128)
}

/// Begins a playback: takes a snapshot of the recorded samples, which later
/// changes to the session do not touch, and enters the playing phase. A
/// playback of an empty recording is refused in every phase, so that no
/// playback ever begins with nothing to play. A playback in a phase that
/// does not allow it is refused too, a running playback included. A refused
/// request changes nothing.
pub fn begin_playback(state: &mut StateManager) -> (started: Result<Playback, SessionError>)
    requires
        old(state).wf(),
    ensures
        final(state).wf(),
        match playback_refusal(old(state)@) {
            Some(refusal) => {
                &&& started matches Err(error)
                &&& error@ == refusal
                &&& *final(state) == *old(state)
            },
            None => {
                &&& started matches Ok(playback)
                &&& playback.audio@ == samples_to_le_bytes(old(state)@.audio)
                &&& playback.duration_nanos == playback_nanos(old(state)@.audio.len())
                &&& playback.duration_nanos > 0
                &&& final(state)@ == moved_to(old(state)@, AppStateEnum::Playing)
            },
        },
{
    let samples: Vec<u32> = state.get_audio_data();
    if samples.len() == 0 {
        return Err(SessionError::EmptyBuffer);
    }
    let phase: AppStateEnum = state.get_app_state();
    if phase != AppStateEnum::Recorded && phase != AppStateEnum::Transcribed {
        return Err(SessionError::InvalidState);
    }
    let audio: Vec<u8> = encode_samples(samples.as_slice());
    let duration_nanos: u128 = playback_duration(samples.len());
    let cancel: Receiver<()> = state.start_playing();
    Ok(Playback { audio, duration_nanos, cancel })
}

/// Decides what follows `event` in a playback.
///
/// The playback ends when the device reports the end of the stream or an
/// error, on the cancel signal, and on a tick that finds the session no
/// longer playing. Whatever ends it, the session is then no longer playing:
/// it is at rest, as after [`StateManager::stop_playing`].
pub fn play_audio(state: &mut StateManager, event: PlaybackEvent) -> (action: PlaybackAction)
    requires
        old(state).wf(),
    ensures
        final(state).wf(),
        !ends_playback(old(state)@, event) ==> {
            &&& action == PlaybackAction::Continue
            &&& *final(state) == *old(state)
        },
        ends_playback(old(state)@, event) ==> {
            &&& action == PlaybackAction::Finish(playback_outcome(event))
            &&& final(state)@ == playback_stopped(old(state)@)
            &&& final(state)@.phase != AppStateEnum::Playing
        },
{
    match event {
        PlaybackEvent::EndOfStream => {
            state.stop_playing();
            PlaybackAction::Finish(PlaybackOutcome::Completed)
        },
        PlaybackEvent::DeviceError(message) => {
            state.stop_playing();
            PlaybackAction::Finish(PlaybackOutcome::Failed(SessionError::Playback(message)))
        },
        PlaybackEvent::StopSignal => {
            state.stop_playing();
            PlaybackAction::Finish(PlaybackOutcome::Cancelled)
        },
        PlaybackEvent::Tick => {
            if state.is_playing() {
                PlaybackAction::Continue
            } else {
                PlaybackAction::Finish(PlaybackOutcome::Cancelled)
            }
        },
    }
}

} // verus!
