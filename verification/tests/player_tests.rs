use tokio::sync::broadcast::error::TryRecvError;
use voice_transcriber::audio::player::{
    begin_playback, play_audio, playback_duration, PlaybackAction, PlaybackEvent, PlaybackOutcome,
    PLAYBACK_SAMPLE_RATE,
};
use voice_transcriber::config::Config;
use voice_transcriber::error::SessionError;
use voice_transcriber::state::{AppStateEnum, StateManager};

fn recorded(samples: &[f32]) -> StateManager {
    let mut state = StateManager::new(Config::default());
    state.set_audio_data(samples.iter().map(|sample| sample.to_bits()).collect());
    state.set_app_state(AppStateEnum::Recorded);
    state
}

#[test]
fn playback_duration_is_the_sample_count_over_the_rate() {
    assert_eq!(PLAYBACK_SAMPLE_RATE, 44100);
    assert_eq!(playback_duration(0), 0);
    assert_eq!(playback_duration(44100), 1_000_000_000);
    assert_eq!(playback_duration(22050), 500_000_000);
    assert_eq!(playback_duration(1), 22_675);
    assert_eq!(playback_duration(16000), 362_811_791);
    assert_eq!(
        playback_duration(usize::MAX),
        usize::MAX as u128 * 1_000_000_000 / 44100
    );
}

#[test]
fn playback_takes_a_snapshot_of_the_recording() {
    let mut state = recorded(&[0.5, -1.0, 0.0]);
    let playback = begin_playback(&mut state).unwrap();
    assert_eq!(playback.audio, [0.5f32.to_le_bytes(), (-1.0f32).to_le_bytes(), 0.0f32.to_le_bytes()].concat());
    assert_eq!(playback.duration_nanos, 3 * 1_000_000_000 / 44100);
    assert_eq!(state.get_app_state(), AppStateEnum::Playing);
    assert!(state.is_playing());
    // Later changes to the session do not reach the snapshot.
    state.reset();
    assert_eq!(playback.audio.len(), 12);
}

#[test]
fn playback_of_an_empty_recording_is_refused() {
    for phase in [
        AppStateEnum::Idle,
        AppStateEnum::Recording,
        AppStateEnum::Recorded,
        AppStateEnum::Transcribing,
        AppStateEnum::Transcribed,
        AppStateEnum::Playing,
    ] {
        let mut state = StateManager::new(Config::default());
        state.set_app_state(phase);
        let started = begin_playback(&mut state);
        assert!(matches!(started, Err(SessionError::EmptyBuffer)));
        assert_eq!(state.get_app_state(), phase);
        assert!(state.get_audio_data().is_empty());
    }
}

#[test]
fn playback_is_refused_outside_a_recording_at_rest() {
    for phase in [
        AppStateEnum::Idle,
        AppStateEnum::Recording,
        AppStateEnum::Transcribing,
        AppStateEnum::Playing,
    ] {
        let mut state = recorded(&[0.5]);
        state.set_app_state(phase);
        let started = begin_playback(&mut state);
        assert!(matches!(started, Err(SessionError::InvalidState)));
        assert_eq!(state.get_app_state(), phase);
        assert_eq!(state.get_audio_data(), vec![0.5f32.to_bits()]);
    }
}

#[test]
fn a_second_playback_does_not_restart_the_first() {
    let mut state = recorded(&[0.5]);
    let mut first = begin_playback(&mut state).unwrap();
    assert!(matches!(begin_playback(&mut state), Err(SessionError::InvalidState)));
    assert!(matches!(first.cancel.try_recv(), Err(TryRecvError::Empty)));
    assert!(state.is_playing());
}

#[test]
fn the_buffer_check_comes_before_the_phase_check() {
    let mut state = StateManager::new(Config::default());
    assert!(matches!(begin_playback(&mut state), Err(SessionError::EmptyBuffer)));
    state.set_audio_data(vec![0]);
    assert!(matches!(begin_playback(&mut state), Err(SessionError::InvalidState)));
}

#[test]
fn a_playback_that_begins_has_something_to_play() {
    for count in [1usize, 2, 44100, 100_000] {
        let mut state = recorded(&vec![0.25; count]);
        let playback = begin_playback(&mut state).unwrap();
        assert!(playback.duration_nanos > 0);
        assert_eq!(playback.audio.len(), 4 * count);
    }
}

#[test]
fn playback_goes_on_while_nothing_happens() {
    let mut state = recorded(&[0.5]);
    let _playback = begin_playback(&mut state).unwrap();
    for _ in 0..3 {
        assert!(matches!(play_audio(&mut state, PlaybackEvent::Tick), PlaybackAction::Continue));
        assert!(state.is_playing());
    }
}

#[test]
fn the_end_of_the_stream_completes_the_playback() {
    let mut state = recorded(&[0.5]);
    let mut playback = begin_playback(&mut state).unwrap();
    let action = play_audio(&mut state, PlaybackEvent::EndOfStream);
    assert!(matches!(action, PlaybackAction::Finish(PlaybackOutcome::Completed)));
    assert_eq!(state.get_app_state(), AppStateEnum::Recorded);
    assert!(matches!(playback.cancel.try_recv(), Ok(())));
}

#[test]
fn playback_returns_to_transcribed_when_a_transcript_is_held() {
    let mut state = recorded(&[0.5]);
    state.set_transcribed_text("words".to_string());
    state.set_app_state(AppStateEnum::Transcribed);
    let _playback = begin_playback(&mut state).unwrap();
    play_audio(&mut state, PlaybackEvent::EndOfStream);
    assert_eq!(state.get_app_state(), AppStateEnum::Transcribed);
}

#[test]
fn a_device_error_ends_the_playback_and_is_surfaced() {
    let mut state = recorded(&[0.5]);
    let _playback = begin_playback(&mut state).unwrap();
    let action = play_audio(&mut state, PlaybackEvent::DeviceError("sink lost".to_string()));
    assert!(matches!(
        action,
        PlaybackAction::Finish(PlaybackOutcome::Failed(SessionError::Playback(message)))
            if message == "sink lost"
    ));
    assert_eq!(state.get_app_state(), AppStateEnum::Recorded);
}

#[test]
fn the_cancel_signal_ends_the_playback() {
    let mut state = recorded(&[0.5]);
    let mut playback = begin_playback(&mut state).unwrap();
    state.stop_playing();
    assert!(matches!(playback.cancel.try_recv(), Ok(())));
    let action = play_audio(&mut state, PlaybackEvent::StopSignal);
    assert!(matches!(action, PlaybackAction::Finish(PlaybackOutcome::Cancelled)));
    assert_eq!(state.get_app_state(), AppStateEnum::Recorded);
}

#[test]
fn a_tick_notices_that_playing_was_left() {
    let mut state = recorded(&[0.5]);
    let _playback = begin_playback(&mut state).unwrap();
    state.reset();
    let action = play_audio(&mut state, PlaybackEvent::Tick);
    assert!(matches!(action, PlaybackAction::Finish(PlaybackOutcome::Cancelled)));
    assert_eq!(state.get_app_state(), AppStateEnum::Idle);
}
