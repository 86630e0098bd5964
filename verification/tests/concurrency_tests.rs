use std::sync::{Arc, Mutex};
use tokio::runtime::Builder;
use voice_transcriber::audio::recorder::{
    begin_recording, capture_chunk, record_audio, FlowDecision, RecordingAction, RecordingEvent,
    RecordingSupervisor,
};
use voice_transcriber::config::Config;
use voice_transcriber::state::{AppStateEnum, StateManager};

fn shared_session() -> Arc<Mutex<StateManager>> {
    let config =
        Config { sample_rate: 16000, channels: 1, max_file_size_bytes: 64000, ..Config::default() };
    Arc::new(Mutex::new(StateManager::new(config)))
}

fn chunk(index: u32) -> Vec<u8> {
    (0..8u32).flat_map(|offset| (index * 8 + offset).to_le_bytes()).collect()
}

/// Delivers chunks as a capture device would, until it is told to stop.
/// Returns how many chunks it delivered.
fn deliver(session: &Arc<Mutex<StateManager>>, most: u32) -> u32 {
    for index in 0..most {
        let decision = capture_chunk(&mut session.lock().unwrap(), &chunk(index));
        if decision == FlowDecision::Stop {
            return index + 1;
        }
        std::hint::spin_loop();
    }
    most
}

#[test]
fn a_stop_during_delivery_drops_no_chunk() {
    let runtime = Builder::new_multi_thread().worker_threads(2).build().unwrap();
    for round in 0..50u32 {
        let session = shared_session();
        let mut supervisor = RecordingSupervisor::new();
        let _cancel = begin_recording(&mut session.lock().unwrap(), &mut supervisor).unwrap();

        let device = session.clone();
        let user = session.clone();
        let (delivered, _) = runtime.block_on(async move {
            let delivering = tokio::task::spawn_blocking(move || deliver(&device, 20_000));
            let stopping = tokio::task::spawn_blocking(move || {
                for _ in 0..round * 40 {
                    std::hint::spin_loop();
                }
                user.lock().unwrap().stop_recording();
            });
            (delivering.await.unwrap(), stopping.await.unwrap())
        });

        let state = session.lock().unwrap();
        assert_eq!(state.get_app_state(), AppStateEnum::Recorded);
        // Every chunk that was delivered is there, in delivery order, the
        // one that was in flight at the stop included.
        let expected: Vec<u32> = (0..delivered * 8).collect();
        assert_eq!(state.get_audio_data(), expected);
        assert!(delivered >= 1);
    }
}

#[test]
fn the_watchdog_and_the_device_share_the_session() {
    let runtime = Builder::new_multi_thread().worker_threads(2).build().unwrap();
    let session = shared_session();
    let mut supervisor = RecordingSupervisor::new();
    let _cancel = begin_recording(&mut session.lock().unwrap(), &mut supervisor).unwrap();

    let device = session.clone();
    let watched = session.clone();
    let (delivered, ticks) = runtime.block_on(async move {
        let delivering = tokio::task::spawn_blocking(move || deliver(&device, 1_000_000));
        let watching = tokio::task::spawn_blocking(move || {
            // The simulated clock advances by 100 ms per tick.
            let mut ticks: u128 = 0;
            loop {
                ticks += 1;
                let event = RecordingEvent::Tick { elapsed_nanos: ticks * 100_000_000 };
                let action = record_audio(&mut watched.lock().unwrap(), &mut supervisor, event);
                if matches!(action, RecordingAction::Finish(_)) {
                    return ticks;
                }
            }
        });
        (delivering.await.unwrap(), watching.await.unwrap())
    });

    // One second at 64000 bytes per second: the tenth tick stops it.
    assert_eq!(ticks, 10);
    let state = session.lock().unwrap();
    assert_eq!(state.get_app_state(), AppStateEnum::Recorded);
    let expected: Vec<u32> = (0..delivered * 8).collect();
    assert_eq!(state.get_audio_data(), expected);
}
