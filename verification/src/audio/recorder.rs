//! Capture of audio into the session, and the supervision of one recording.
//!
//! The capture device and the timers belong to the caller. The caller hands
//! each delivered chunk to [`capture_chunk`], and each thing that happens
//! while a recording runs (the cancel signal, the end of the stream, a device
//! error, a tick of the watchdog) to [`record_audio`], and does what the
//! answer says.

use crate::audio::sample::{decode_samples, samples_from_le_bytes};
use crate::config::{lemma_max_duration_is_exact, Config};
use crate::error::SessionError;
use crate::state::{
    appended, appended_all, lemma_appends_concatenate, moved_to, recording_stopped, AppStateEnum,
    AppStateView, StateManager,
};
use tokio::sync::broadcast::Receiver;
use vstd::prelude::*;

verus! {

/// What the capture device is told after a chunk was taken in.
#[derive(Debug, Clone, Copy, PartialEq, Eq, Structural)]
pub enum FlowDecision {
    /// Keep streaming.
    Continue,
    /// End the stream.
    Stop,
}

/// Where one recording stands in its life.
#[derive(Debug, Clone, Copy, PartialEq, Eq, Structural)]
pub enum RecordingStage {
    /// Not begun.
    Idle,
    /// Capturing.
    Recording,
    /// Ended by itself: the device closed the stream, or the watchdog
    /// stopped it at the longest duration.
    Recorded,
    /// Ended from outside: by the cancel signal, by a change of phase, or by
    /// a device error.
    Cancelled,
}

/// What can happen while a recording runs.
#[derive(Debug)]
pub enum RecordingEvent {
    /// The cancel signal was received, or its sender is gone.
    StopSignal,
    /// The capture device reported the end of its stream.
    EndOfStream,
    /// The capture device reported an error.
    DeviceError(String),
    /// The watchdog woke up; the recording has run for `elapsed_nanos`.
    Tick { elapsed_nanos: u128 },
}

/// How a recording ended.
#[derive(Debug)]
pub enum RecordingOutcome {
    /// It was stopped from outside.
    Cancelled,
    /// The device closed the stream.
    Completed,
    /// It reached the longest duration.
    TimedOut,
    /// It could not go on.
    Failed(SessionError),
}

/// What the caller does after an event.
#[derive(Debug)]
pub enum RecordingAction {
    /// Keep the pipeline running and wait for the next event.
    Continue,
    /// Tear the pipeline down; the recording is over.
    Finish(RecordingOutcome),
}

/// The watch over one recording, from its start to its end.
pub struct RecordingSupervisor {
    stage: RecordingStage,
}

/// Whether a recording may begin in `phase`: from idle, or on top of a
/// recording at rest.
pub open spec fn can_record_from(phase: AppStateEnum) -> bool {
    phase == AppStateEnum::Idle || phase == AppStateEnum::Recorded || phase
        == AppStateEnum::Transcribed
}

/// The session after a recording began: recording, with the samples of a
/// recording at rest kept and those of an idle session cleared.
pub open spec fn recording_begun(session: AppStateView) -> AppStateView {
    let kept: Seq<u32> = if session.phase == AppStateEnum::Idle {
        Seq::empty()
    } else {
        session.audio
    };
    moved_to(AppStateView { audio: kept, ..session }, AppStateEnum::Recording)
}

/// Whether a recording that has run for `elapsed_nanos` has reached the
/// longest duration of `session`: at its rate it has filled the size limit.
pub open spec fn timed_out(session: AppStateView, elapsed_nanos: u128) -> bool {
    session.config.filled_after(elapsed_nanos as int)
}

/// Whether `event` ends the recording of `session`.
pub open spec fn ends_recording(session: AppStateView, event: RecordingEvent) -> bool {
    match event {
        RecordingEvent::Tick { elapsed_nanos } => session.phase != AppStateEnum::Recording
            || timed_out(session, elapsed_nanos),
        _ => true,
    }
}

/// How the recording of `session` ends on `event`, given that it does.
pub open spec fn outcome_of(session: AppStateView, event: RecordingEvent) -> RecordingOutcome {
    match event {
        RecordingEvent::StopSignal => RecordingOutcome::Cancelled,
        RecordingEvent::EndOfStream => RecordingOutcome::Completed,
        RecordingEvent::DeviceError(message) => RecordingOutcome::Failed(
            SessionError::Device(message),
        ),
        RecordingEvent::Tick { elapsed_nanos } => if session.phase != AppStateEnum::Recording {
            RecordingOutcome::Cancelled
        } else {
            RecordingOutcome::TimedOut
        },
    }
}

/// The stage in which a recording that ended with `outcome` is left.
pub open spec fn stage_after(outcome: RecordingOutcome) -> RecordingStage {
    match outcome {
        RecordingOutcome::Completed => RecordingStage::Recorded,
        RecordingOutcome::TimedOut => RecordingStage::Recorded,
        _ => RecordingStage::Cancelled,
    }
}

/// A recording collects its chunks: after it began, took in `chunks` in
/// turn and stopped, the session is recorded and holds the chunks in the
/// order in which they came, behind the samples of the recording that it
/// continued, or behind nothing if it began from idle.
pub proof fn lemma_recording_collects_chunks(session: AppStateView, chunks: Seq<Seq<u32>>)
    requires
        can_record_from(session.phase),
    ensures
        ({
            let ended: AppStateView = recording_stopped(
                appended_all(recording_begun(session), chunks),
            );
            &&& ended.phase == AppStateEnum::Recorded
            &&& ended.audio == if session.phase == AppStateEnum::Idle {
                chunks.flatten()
            } else {
                session.audio + chunks.flatten()
            }
        }),
{
    lemma_appends_concatenate(recording_begun(session), chunks);
    assert(Seq::<u32>::empty() + chunks.flatten() =~= chunks.flatten());
}

impl RecordingSupervisor {
    /// The stage of the recording.
    pub closed spec fn stage(&self) -> RecordingStage {
        self.stage
    }

    /// A supervisor of a recording that has not begun.
    pub fn new() -> (supervisor: RecordingSupervisor)
        ensures
            supervisor.stage() == RecordingStage::Idle,
    {
        RecordingSupervisor { stage: RecordingStage::Idle }
    }

    /// The stage of the recording.
    pub fn current_stage(&self) -> (stage: RecordingStage)
        ensures
            stage == self.stage(),
    {
        self.stage
    }
}

/// Whether a recording that has run for `elapsed_nanos` has filled the size
/// limit of `config`.
pub fn reached_limit(config: &Config, elapsed_nanos: u128) -> (reached: bool)
    requires
        config@.valid(),
    ensures
        reached == config@.filled_after(elapsed_nanos as int),
{
    proof {
        lemma_max_duration_is_exact(config@, elapsed_nanos as int);
    }
    elapsed_nanos >= config.max_recording_duration()
}

/// Begins a recording. From idle the recorded samples are cleared; on top of
/// a recording at rest they are kept and the new samples follow them. In any
/// other phase, or with a supervisor that was used before, the request is
/// refused and nothing changes.
pub fn begin_recording(state: &mut StateManager, supervisor: &mut RecordingSupervisor) -> (started:
    Result<Receiver<()>, SessionError>)
    requires
        old(state).wf(),
    ensures
        final(state).wf(),
        started is Ok <==> can_record_from(old(state)@.phase) && old(supervisor).stage()
            == RecordingStage::Idle,
        started is Ok ==> final(state)@ == recording_begun(old(state)@) && final(supervisor).stage() == RecordingStage::Recording,
        started is Err ==> started == Err::<Receiver<()>, SessionError>(SessionError::InvalidState)
            && *final(state) == *old(state) && *final(supervisor) == *old(supervisor),
{
    let phase: AppStateEnum = state.get_app_state();
    let startable: bool = phase == AppStateEnum::Idle || phase == AppStateEnum::Recorded || phase
        == AppStateEnum::Transcribed;
    if !startable || supervisor.stage != RecordingStage::Idle {
        return Err(SessionError::InvalidState);
    }
    if phase == AppStateEnum::Idle {
        state.clear_audio_data();
    }
    let receiver: Receiver<()> = state.start_recording();
    supervisor.stage = RecordingStage::Recording;
    Ok(receiver)
}

/// Takes in one chunk from the capture device: appends its samples to the
/// session, whatever the phase, and then says whether to keep streaming. A
/// chunk that arrives just after recording stopped is therefore kept, and
/// the stream ends with it. The cancel signal is left alone.
pub fn capture_chunk(state: &mut StateManager, chunk: &[u8]) -> (decision: FlowDecision)
    requires
        old(state).wf(),
        chunk@.len() % 4 == 0,
    ensures
        final(state).wf(),
        final(state)@ == appended(old(state)@, samples_from_le_bytes(chunk@)),
        final(state).signal() == old(state).signal(),
        decision == if old(state)@.phase == AppStateEnum::Recording {
            FlowDecision::Continue
        } else {
            FlowDecision::Stop
        },
{
    let samples: Vec<u32> = decode_samples(chunk);
    state.append_audio_data(samples.as_slice());
    if state.get_app_state() == AppStateEnum::Recording {
        FlowDecision::Continue
    } else {
        FlowDecision::Stop
    }
}

/// Decides what follows `event` in the recording that `supervisor` watches.
///
/// The recording ends on the cancel signal, at the end of the device's
/// stream, on a device error, on a tick that finds the session no longer
/// recording, and on a tick at or past the longest duration; the first of
/// these to be handed in wins. Whatever ends it, the session is then no
/// longer recording. An event for a supervisor
/// that watches no running recording is answered with an invalid-state
/// failure and changes nothing.
pub fn record_audio(
    state: &mut StateManager,
    supervisor: &mut RecordingSupervisor,
    event: RecordingEvent,
) -> (action: RecordingAction)
    requires
        old(state).wf(),
    ensures
        final(state).wf(),
        old(supervisor).stage() != RecordingStage::Recording ==> {
            &&& action == RecordingAction::Finish(
                RecordingOutcome::Failed(SessionError::InvalidState),
            )
            &&& *final(state) == *old(state)
            &&& *final(supervisor) == *old(supervisor)
        },
        old(supervisor).stage() == RecordingStage::Recording && !ends_recording(old(state)@, event)
            ==> {
            &&& action == RecordingAction::Continue
            &&& *final(state) == *old(state)
            &&& *final(supervisor) == *old(supervisor)
        },
        old(supervisor).stage() == RecordingStage::Recording && ends_recording(old(state)@, event)
            ==> {
            &&& action == RecordingAction::Finish(outcome_of(old(state)@, event))
            &&& final(state)@ == recording_stopped(old(state)@)
            &&& final(supervisor).stage() == stage_after(outcome_of(old(state)@, event))
        },
        old(supervisor).stage() == RecordingStage::Recording && action is Finish
            ==> final(state)@.phase != AppStateEnum::Recording,
{
    if supervisor.stage != RecordingStage::Recording {
        return RecordingAction::Finish(RecordingOutcome::Failed(SessionError::InvalidState));
    }
    match event {
        RecordingEvent::StopSignal => {
            state.stop_recording();
            supervisor.stage = RecordingStage::Cancelled;
            RecordingAction::Finish(RecordingOutcome::Cancelled)
        },
        RecordingEvent::EndOfStream => {
            state.stop_recording();
            supervisor.stage = RecordingStage::Recorded;
            RecordingAction::Finish(RecordingOutcome::Completed)
        },
        RecordingEvent::DeviceError(message) => {
            state.stop_recording();
            supervisor.stage = RecordingStage::Cancelled;
            RecordingAction::Finish(RecordingOutcome::Failed(SessionError::Device(message)))
        },
        RecordingEvent::Tick { elapsed_nanos } => {
            if !state.is_recording() {
                supervisor.stage = RecordingStage::Cancelled;
                RecordingAction::Finish(RecordingOutcome::Cancelled)
            } else if reached_limit(&state.get_config(), elapsed_nanos) {
                state.stop_recording();
                supervisor.stage = RecordingStage::Recorded;
                RecordingAction::Finish(RecordingOutcome::TimedOut)
            } else {
                RecordingAction::Continue
            }
        },
    }
}

} // verus!
