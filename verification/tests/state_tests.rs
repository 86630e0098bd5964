use tokio::sync::broadcast::error::TryRecvError;
use voice_transcriber::config::Config;
use voice_transcriber::error::SessionError;
use voice_transcriber::state::{AppState, AppStateEnum, StateManager};

const PHASES: [AppStateEnum; 6] = [
    AppStateEnum::Idle,
    AppStateEnum::Recording,
    AppStateEnum::Recorded,
    AppStateEnum::Transcribing,
    AppStateEnum::Transcribed,
    AppStateEnum::Playing,
];

fn session() -> StateManager {
    StateManager::new(Config::default())
}

#[test]
fn a_new_session_is_idle_and_empty() {
    let state = session();
    assert_eq!(state.get_app_state(), AppStateEnum::Idle);
    assert!(state.get_audio_data().is_empty());
    assert_eq!(state.get_transcribed_text(), "");
    assert_eq!(state.get_api_key(), None);
    assert!(!state.is_recording());
    assert!(!state.is_recording_sync());
    assert!(!state.is_playing());
    assert_eq!(state.get_config().sample_rate, 44100);
}

#[test]
fn a_new_session_takes_the_credential_of_its_configuration() {
    let config = Config::load(Ok(Some("gsk_0123456789abcdef".to_string()))).unwrap();
    let state = StateManager::new(config);
    assert_eq!(state.get_api_key(), Some("gsk_0123456789abcdef".to_string()));
    assert_eq!(state.get_config().api_key, Some("gsk_0123456789abcdef".to_string()));
}

#[test]
fn a_session_record_can_be_made_on_its_own() {
    let _record: AppState = AppState::new(Config::default());
}

#[test]
fn the_active_phases_are_recording_and_playing() {
    for phase in PHASES {
        let active = phase == AppStateEnum::Recording || phase == AppStateEnum::Playing;
        assert_eq!(phase.has_pipeline(), active);
    }
}

#[test]
fn setters_change_one_field() {
    let mut state = session();
    state.set_api_key(Some("key".to_string()));
    assert_eq!(state.get_api_key(), Some("key".to_string()));
    assert_eq!(state.get_config().api_key, None);
    state.set_transcribed_text("hello".to_string());
    assert_eq!(state.get_transcribed_text(), "hello");
    state.set_audio_data(vec![1, 2, 3]);
    assert_eq!(state.get_audio_data(), vec![1, 2, 3]);
    assert_eq!(state.get_app_state(), AppStateEnum::Idle);
    state.clear_audio_data();
    assert!(state.get_audio_data().is_empty());
    assert_eq!(state.get_transcribed_text(), "hello");
    state.set_api_key(None);
    assert_eq!(state.get_api_key(), None);
}

#[test]
fn appended_chunks_are_concatenated_in_call_order() {
    let mut state = session();
    let _cancel = state.start_recording();
    let chunks: [&[u32]; 5] = [&[1, 2, 3], &[], &[4], &[5, 6], &[7, 8, 9, 10]];
    let mut expected: Vec<u32> = Vec::new();
    for chunk in chunks {
        state.append_audio_data(chunk);
        expected.extend_from_slice(chunk);
        assert_eq!(state.get_audio_data(), expected);
    }
    assert_eq!(state.get_audio_data(), (1..=10).collect::<Vec<u32>>());
    assert_eq!(state.get_app_state(), AppStateEnum::Recording);
}

#[test]
fn append_keeps_what_was_recorded_before() {
    let mut state = session();
    state.set_audio_data(vec![9, 8]);
    state.append_audio_data(&[7]);
    assert_eq!(state.get_audio_data(), vec![9, 8, 7]);
}

#[test]
fn start_recording_enters_the_recording_phase() {
    for phase in PHASES {
        let mut state = session();
        state.set_app_state(phase);
        state.set_audio_data(vec![1, 2]);
        let _cancel = state.start_recording();
        assert_eq!(state.get_app_state(), AppStateEnum::Recording);
        assert!(state.is_recording());
        assert_eq!(state.get_audio_data(), vec![1, 2]);
    }
}

#[test]
fn stop_recording_fires_the_signal_and_leaves_a_recording() {
    let mut state = session();
    let mut cancel = state.start_recording();
    assert!(matches!(cancel.try_recv(), Err(TryRecvError::Empty)));
    state.append_audio_data(&[5]);
    state.stop_recording();
    assert_eq!(state.get_app_state(), AppStateEnum::Recorded);
    assert!(!state.is_recording());
    assert_eq!(state.get_audio_data(), vec![5]);
    assert!(matches!(cancel.try_recv(), Ok(())));
    // The sender is gone with the signal.
    assert!(matches!(cancel.try_recv(), Err(TryRecvError::Closed)));
}

#[test]
fn stop_recording_without_a_recording_changes_nothing() {
    for phase in PHASES {
        if phase == AppStateEnum::Recording {
            continue;
        }
        let mut state = session();
        state.set_audio_data(vec![1]);
        state.set_transcribed_text("text".to_string());
        state.set_app_state(phase);
        state.stop_recording();
        state.stop_recording();
        assert_eq!(state.get_app_state(), phase);
        assert_eq!(state.get_audio_data(), vec![1]);
        assert_eq!(state.get_transcribed_text(), "text");
    }
}

#[test]
fn stop_recording_does_not_fire_the_signal_of_a_playback() {
    let mut state = session();
    let mut cancel = state.start_playing();
    state.stop_recording();
    assert_eq!(state.get_app_state(), AppStateEnum::Playing);
    assert!(matches!(cancel.try_recv(), Err(TryRecvError::Empty)));
}

#[test]
fn stopping_twice_is_the_same_as_stopping_once() {
    let mut state = session();
    let mut cancel = state.start_recording();
    state.stop_recording();
    state.stop_recording();
    assert_eq!(state.get_app_state(), AppStateEnum::Recorded);
    assert!(matches!(cancel.try_recv(), Ok(())));
    assert!(matches!(cancel.try_recv(), Err(TryRecvError::Closed)));
}

#[test]
fn a_second_start_fires_the_first_signal() {
    let mut state = session();
    let mut first = state.start_recording();
    let mut second = state.start_recording();
    assert!(matches!(first.try_recv(), Ok(())));
    assert!(matches!(second.try_recv(), Err(TryRecvError::Empty)));
    state.stop_recording();
    assert!(matches!(second.try_recv(), Ok(())));
}

#[test]
fn set_recording_starts_and_stops() {
    let mut state = session();
    state.set_recording(true);
    assert!(state.is_recording());
    assert_eq!(state.get_app_state(), AppStateEnum::Recording);
    state.set_recording(false);
    assert!(!state.is_recording());
    assert_eq!(state.get_app_state(), AppStateEnum::Recorded);
    state.set_app_state(AppStateEnum::Playing);
    state.set_recording(false);
    assert_eq!(state.get_app_state(), AppStateEnum::Playing);
}

#[test]
fn set_app_state_reaches_every_phase_from_every_phase() {
    for from in PHASES {
        for to in PHASES {
            let mut state = session();
            state.set_audio_data(vec![3]);
            state.set_app_state(from);
            state.set_app_state(to);
            assert_eq!(state.get_app_state(), to);
            assert_eq!(state.is_recording(), to == AppStateEnum::Recording);
            assert_eq!(state.is_playing(), to == AppStateEnum::Playing);
            assert_eq!(state.get_audio_data(), vec![3]);
        }
    }
}

#[test]
fn leaving_an_active_phase_fires_its_signal() {
    for to in PHASES {
        if to == AppStateEnum::Recording {
            continue;
        }
        let mut state = session();
        let mut cancel = state.start_recording();
        state.set_app_state(to);
        assert!(matches!(cancel.try_recv(), Ok(())));
    }
}

#[test]
fn staying_in_a_phase_keeps_its_signal() {
    let mut state = session();
    let mut cancel = state.start_recording();
    state.set_app_state(AppStateEnum::Recording);
    assert!(matches!(cancel.try_recv(), Err(TryRecvError::Empty)));
}

#[test]
fn stop_playing_returns_to_the_resting_phase() {
    let mut state = session();
    state.set_audio_data(vec![1]);
    let mut cancel = state.start_playing();
    assert!(state.is_playing());
    state.stop_playing();
    assert_eq!(state.get_app_state(), AppStateEnum::Recorded);
    assert!(matches!(cancel.try_recv(), Ok(())));

    state.set_transcribed_text("words".to_string());
    let _cancel = state.start_playing();
    state.stop_playing();
    assert_eq!(state.get_app_state(), AppStateEnum::Transcribed);
}

#[test]
fn stop_playing_without_a_playback_changes_nothing() {
    for phase in PHASES {
        if phase == AppStateEnum::Playing {
            continue;
        }
        let mut state = session();
        state.set_app_state(phase);
        state.stop_playing();
        assert_eq!(state.get_app_state(), phase);
    }
}

#[test]
fn reset_drops_recording_and_transcript() {
    let mut state = session();
    state.set_api_key(Some("key".to_string()));
    state.set_audio_data(vec![1, 2]);
    state.set_transcribed_text("words".to_string());
    let mut cancel = state.start_playing();
    state.reset();
    assert_eq!(state.get_app_state(), AppStateEnum::Idle);
    assert!(state.get_audio_data().is_empty());
    assert_eq!(state.get_transcribed_text(), "");
    assert_eq!(state.get_api_key(), Some("key".to_string()));
    assert!(matches!(cancel.try_recv(), Ok(())));
}

#[test]
fn has_api_key_reads_the_lookup() {
    let state = session();
    assert!(state.has_api_key(&Ok(Some("k".to_string()))));
    assert!(!state.has_api_key(&Ok(None)));
    assert!(!state.has_api_key(&Err(SessionError::CredentialStore("x".to_string()))));
}

#[test]
fn remove_api_key_forgets_the_credential() {
    let config = Config::load(Ok(Some("gsk_0123456789abcdef".to_string()))).unwrap();
    let mut state = StateManager::new(config);
    assert!(matches!(state.remove_api_key(Ok(())), Ok(())));
    assert_eq!(state.get_api_key(), None);
    assert_eq!(state.get_config().api_key, None);
}

#[test]
fn a_failed_removal_keeps_the_credential() {
    let config = Config::load(Ok(Some("gsk_0123456789abcdef".to_string()))).unwrap();
    let mut state = StateManager::new(config);
    let done = state.remove_api_key(Err(SessionError::CredentialStore("denied".to_string())));
    assert!(matches!(done, Err(SessionError::CredentialStore(message)) if message == "denied"));
    assert_eq!(state.get_api_key(), Some("gsk_0123456789abcdef".to_string()));
    assert_eq!(state.get_config().api_key, Some("gsk_0123456789abcdef".to_string()));
}

#[test]
fn the_invariant_holds_after_every_operation() {
    let mut state = session();
    assert!(state.is_well_formed());
    for from in PHASES {
        for to in PHASES {
            state.set_app_state(from);
            assert!(state.is_well_formed());
            state.set_app_state(to);
            assert!(state.is_well_formed());
            state.append_audio_data(&[1]);
            state.stop_recording();
            assert!(state.is_well_formed());
            state.stop_playing();
            assert!(state.is_well_formed());
            let _cancel = state.start_recording();
            assert!(state.is_well_formed());
            let _cancel = state.start_playing();
            assert!(state.is_well_formed());
            state.set_recording(false);
            state.set_recording(true);
            assert!(state.is_well_formed());
            state.reset();
            assert!(state.is_well_formed());
        }
    }
}

#[test]
fn what_does_not_stop_a_pipeline_leaves_its_signal_alone() {
    let mut state = session();
    let mut cancel = state.start_recording();
    state.append_audio_data(&[1, 2]);
    state.set_audio_data(vec![3]);
    state.clear_audio_data();
    state.set_transcribed_text("words".to_string());
    state.set_api_key(Some("key".to_string()));
    assert!(matches!(state.remove_api_key(Ok(())), Ok(())));
    state.set_recording(true);
    state.stop_playing();
    assert!(matches!(cancel.try_recv(), Err(TryRecvError::Empty)));
    state.stop_recording();
    assert!(matches!(cancel.try_recv(), Ok(())));
}

#[test]
fn a_move_into_transcribing_remembers_the_phase_left() {
    let mut state = session();
    assert_eq!(state.get_resume_phase(), AppStateEnum::Idle);
    state.set_app_state(AppStateEnum::Recorded);
    assert_eq!(state.get_resume_phase(), AppStateEnum::Idle);
    state.set_app_state(AppStateEnum::Transcribing);
    assert_eq!(state.get_resume_phase(), AppStateEnum::Recorded);
    state.set_app_state(AppStateEnum::Transcribing);
    assert_eq!(state.get_resume_phase(), AppStateEnum::Recorded);
    state.set_app_state(AppStateEnum::Transcribed);
    state.reset();
    assert_eq!(state.get_resume_phase(), AppStateEnum::Recorded);
    state.set_app_state(AppStateEnum::Transcribing);
    assert_eq!(state.get_resume_phase(), AppStateEnum::Idle);
}
