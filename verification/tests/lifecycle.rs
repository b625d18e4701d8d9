use capture_core::chunk::StreamKind;
use capture_core::error::CaptureError;
use capture_core::manager::CaptureManager;
use capture_core::manager::CaptureState;
use capture_core::manager::StartAction;
use capture_core::options::CaptureOptions;
use capture_core::options::CaptureTarget;

fn options(chunk_duration_ms: u64, capture_mic: bool, debug_save: bool) -> CaptureOptions {
    CaptureOptions {
        chunk_duration_ms,
        capture_mic,
        debug_save,
        target: CaptureTarget::FullDisplay,
    }
}

/// Drives a start attempt to completion, with every action succeeding.
fn drive_start_to_running(m: &mut CaptureManager) {
    loop {
        match m.next_start_action() {
            StartAction::Finish => {
                m.finish_start();
                return;
            }
            _ => m.start_action_succeeded(),
        }
    }
}

#[test]
fn manager_begins_idle() {
    let m = CaptureManager::new();
    assert_eq!(m.status(), CaptureState::Idle);
    assert!(!m.status().is_active());
    assert_eq!(m.options().chunk_duration_ms, CaptureOptions::default_chunk_ms());
    assert!(!m.options().capture_mic);
    assert!(!m.options().debug_save);
}

#[test]
fn is_active_matches_states() {
    assert!(!CaptureState::Idle.is_active());
    assert!(CaptureState::Starting.is_active());
    assert!(CaptureState::Running.is_active());
    assert!(CaptureState::Stopping.is_active());
}

#[test]
fn start_then_stop_returns_to_idle() {
    let mut m = CaptureManager::new();
    let r = m.start_capture(options(1000, false, false));
    assert!(r.is_ok());
    assert_eq!(m.status(), CaptureState::Starting);
    drive_start_to_running(&mut m);
    assert_eq!(m.status(), CaptureState::Running);
    let torn = m.stop_capture();
    assert_eq!(m.status(), CaptureState::Stopping);
    assert_eq!(torn, vec![StreamKind::Video, StreamKind::SystemAudio]);
    m.finish_stop();
    assert_eq!(m.status(), CaptureState::Idle);
}

#[test]
fn start_actions_follow_session_order_without_mic() {
    let mut m = CaptureManager::new();
    m.start_capture(options(1000, false, false)).unwrap();
    assert_eq!(m.next_start_action(), StartAction::SpawnConsumer);
    m.start_action_succeeded();
    assert_eq!(m.next_start_action(), StartAction::Build(StreamKind::Video));
    m.start_action_succeeded();
    assert_eq!(m.next_start_action(), StartAction::Build(StreamKind::SystemAudio));
    m.start_action_succeeded();
    assert_eq!(m.next_start_action(), StartAction::Activate(StreamKind::Video));
    m.start_action_succeeded();
    assert_eq!(m.next_start_action(), StartAction::Activate(StreamKind::SystemAudio));
    m.start_action_succeeded();
    assert_eq!(m.next_start_action(), StartAction::Finish);
    m.finish_start();
    assert_eq!(m.status(), CaptureState::Running);
}

#[test]
fn start_actions_include_mic_when_requested() {
    let mut m = CaptureManager::new();
    m.start_capture(options(1000, true, false)).unwrap();
    let mut builds: u32 = 0;
    let mut activations: u32 = 0;
    loop {
        match m.next_start_action() {
            StartAction::SpawnConsumer => m.start_action_succeeded(),
            StartAction::Build(_) => {
                builds += 1;
                m.start_action_succeeded();
            }
            StartAction::Activate(_) => {
                activations += 1;
                m.start_action_succeeded();
            }
            StartAction::Finish => break,
        }
    }
    assert_eq!(builds, 3);
    assert_eq!(activations, 3);
}

#[test]
fn second_start_is_refused_and_changes_nothing() {
    let mut m = CaptureManager::new();
    m.start_capture(options(1000, false, false)).unwrap();
    drive_start_to_running(&mut m);
    let before_status = m.status();
    let before_duration = m.options().chunk_duration_ms;
    let r = m.start_capture(options(9999, true, true));
    assert!(matches!(r, Err(CaptureError::AlreadyActive)));
    assert_eq!(m.status(), before_status);
    assert_eq!(m.options().chunk_duration_ms, before_duration);
    assert!(!m.options().capture_mic);
}

#[test]
fn failed_start_rolls_back_to_idle() {
    let mut m = CaptureManager::new();
    m.start_capture(options(500, true, true)).unwrap();
    // consumer spawned, video and system audio constructed
    m.start_action_succeeded();
    m.start_action_succeeded();
    m.start_action_succeeded();
    // the mic pipeline fails to construct: roll the attempt back
    assert_eq!(m.next_start_action(), StartAction::Build(StreamKind::Mic));
    let torn = m.start_action_failed();
    assert_eq!(torn, vec![StreamKind::Video, StreamKind::SystemAudio]);
    assert_eq!(m.status(), CaptureState::Idle);
}

#[test]
fn failed_activation_tears_down_every_built_pipeline() {
    let mut m = CaptureManager::new();
    m.start_capture(options(1000, false, false)).unwrap();
    m.start_action_succeeded(); // consumer
    m.start_action_succeeded(); // build video
    m.start_action_succeeded(); // build system audio
    m.start_action_succeeded(); // activate video
    assert_eq!(m.next_start_action(), StartAction::Activate(StreamKind::SystemAudio));
    let torn = m.start_action_failed();
    assert_eq!(torn, vec![StreamKind::Video, StreamKind::SystemAudio]);
    assert_eq!(m.status(), CaptureState::Idle);
}

#[test]
fn missing_capability_start_leaves_idle() {
    let mut m = CaptureManager::new();
    m.start_capture(options(500, true, true)).unwrap();
    m.start_action_succeeded(); // consumer
    m.start_action_succeeded(); // build video
    m.start_action_succeeded(); // build system audio
    // the mic build reports a missing element, as the shell would
    let err = capture_core::error::missing_element("pulsesrc");
    assert!(matches!(&err, CaptureError::MissingCapability { element } if element == "pulsesrc"));
    let torn = m.start_action_failed();
    assert_eq!(m.status(), CaptureState::Idle);
    assert!(!torn.contains(&StreamKind::Mic));
}

#[test]
fn stop_is_idempotent_when_idle() {
    let mut m = CaptureManager::new();
    let torn = m.stop_capture();
    assert!(torn.is_empty());
    assert_eq!(m.status(), CaptureState::Idle);
}

#[test]
fn configure_while_running_is_refused_and_keeps_options() {
    let mut m = CaptureManager::new();
    m.start_capture(options(2000, false, false)).unwrap();
    drive_start_to_running(&mut m);
    let r = m.set_options(options(7000, true, true));
    assert!(matches!(r, Err(CaptureError::CaptureActive)));
    assert_eq!(m.options().chunk_duration_ms, 2000);
    assert!(!m.options().capture_mic);
    assert!(!m.options().debug_save);
    let _ = m.stop_capture();
    m.finish_stop();
    let r2 = m.set_options(options(7000, true, true));
    assert!(r2.is_ok());
    assert_eq!(m.options().chunk_duration_ms, 7000);
    assert!(m.options().capture_mic);
}
