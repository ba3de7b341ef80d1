use motion_cam::controller::CameraType;
use motion_cam::controller::MotionController;
use motion_cam::controller::RecordAction;
use motion_cam::controller::ShutdownError;
use motion_cam::controller::StartError;
use motion_cam::controller::StreamAction;
use motion_cam::controller::motion_from_samples;
use motion_cam::controller::recording_output_path;
use motion_cam::controller::DEBOUNCE_WINDOW;

#[test]
fn start_activates_idle_controller() {
    let mut c = MotionController::new();
    assert_eq!(c.status(), (false, false));
    assert_eq!(c.start(CameraType::Record), Ok(()));
    assert_eq!(c.status(), (true, false));
    assert_eq!(c.mode, Some(CameraType::Record));
    assert!(!c.recording);
}

#[test]
fn start_on_active_controller_is_conflict() {
    // an already-active controller always reports a conflict and is untouched
    let mut c = MotionController::new();
    assert_eq!(c.start(CameraType::Record), Ok(()));
    let before_recording = c.recording;
    assert_eq!(c.start(CameraType::Stream), Err(StartError::AlreadyActive));
    assert_eq!(c.recording, before_recording);
    assert_eq!(c.status(), (true, false));

    // also while a recording is in flight
    assert_eq!(c.record_step(true), RecordAction::Launch);
    c.note_launched(42);
    assert_eq!(c.start(CameraType::Record), Err(StartError::AlreadyActive));
    assert!(c.recording);
    assert_eq!(c.process, Some(42));
}

#[test]
fn start_while_shutting_down_is_conflict() {
    // a pending shutdown alone (the instant between the loop observing the
    // flag and resetting it) refuses a new session
    let mut c = MotionController {
        active: false,
        shutdown_requested: true,
        recording: false,
        process: None,
        mode: None,
    };
    assert_eq!(c.start(CameraType::Record), Err(StartError::ShuttingDown));
    assert_eq!(c.status(), (false, true));
}

#[test]
fn shutdown_request_errors() {
    let mut c = MotionController::new();
    assert_eq!(c.request_shutdown(), Err(ShutdownError::NotActive));
    assert_eq!(c.start(CameraType::Record), Ok(()));
    assert_eq!(c.request_shutdown(), Ok(()));
    assert_eq!(c.request_shutdown(), Err(ShutdownError::AlreadyShuttingDown));
}

#[test]
fn shutdown_observed_within_one_poll_record() {
    // request_shutdown + one poll iteration: active back to false, at most
    // one stop signal for the session's process
    let mut c = MotionController::new();
    assert_eq!(c.start(CameraType::Record), Ok(()));
    assert_eq!(c.record_step(true), RecordAction::Launch);
    c.note_launched(77);
    assert_eq!(c.request_shutdown(), Ok(()));
    assert_eq!(c.status(), (true, true));
    let action = c.record_step(true);
    assert_eq!(action, RecordAction::ShutDown { stop: Some(77) });
    assert_eq!(c.status(), (false, false));
    assert_eq!(c.process, None);
    assert!(!c.recording);
}

#[test]
fn shutdown_without_recording_stops_nothing() {
    let mut c = MotionController::new();
    assert_eq!(c.start(CameraType::Record), Ok(()));
    assert_eq!(c.request_shutdown(), Ok(()));
    // no process was ever launched: the shutdown action carries no stop id
    assert_eq!(c.record_step(false), RecordAction::ShutDown { stop: None });
    assert_eq!(c.status(), (false, false));
}

#[test]
fn motion_launches_exactly_once() {
    // 5 consecutive samples with at least one high reading: one launch;
    // motion persisting: recording stays true, no second launch
    let samples = vec![false, false, true, false, false];
    assert_eq!(samples.len(), DEBOUNCE_WINDOW);
    let motion = motion_from_samples(&samples);
    assert!(motion);

    let mut c = MotionController::new();
    assert_eq!(c.start(CameraType::Record), Ok(()));
    let mut launches = 0;
    for _ in 0..4 {
        match c.record_step(motion) {
            RecordAction::Launch => {
                launches += 1;
                c.note_launched(91);
            }
            RecordAction::Wait => {}
            other => panic!("unexpected action {:?}", other),
        }
    }
    assert_eq!(launches, 1);
    assert!(c.recording);
    assert_eq!(c.process, Some(91));
}

#[test]
fn motion_ending_stops_the_recording() {
    let mut c = MotionController::new();
    assert_eq!(c.start(CameraType::Record), Ok(()));
    assert_eq!(c.record_step(true), RecordAction::Launch);
    c.note_launched(5);
    assert_eq!(c.record_step(false), RecordAction::StopRecording { stop: 5 });
    assert!(!c.recording);
    assert_eq!(c.process, None);
    // the controller stays active and can record again
    assert_eq!(c.status(), (true, false));
    assert_eq!(c.record_step(true), RecordAction::Launch);
}

#[test]
fn no_motion_and_not_recording_waits() {
    let mut c = MotionController::new();
    assert_eq!(c.start(CameraType::Record), Ok(()));
    assert_eq!(c.record_step(false), RecordAction::Wait);
    assert_eq!(c.status(), (true, false));
}

#[test]
fn stream_session_runs_until_shutdown() {
    let mut c = MotionController::new();
    assert_eq!(c.start(CameraType::Stream), Ok(()));
    c.stream_started(33);
    assert_eq!(c.stream_step(), StreamAction::Wait);
    assert_eq!(c.stream_step(), StreamAction::Wait);
    assert_eq!(c.request_shutdown(), Ok(()));
    assert_eq!(c.stream_step(), StreamAction::ShutDown { stop: 33 });
    assert_eq!(c.status(), (false, false));
}

#[test]
fn abort_makes_controller_inactive() {
    let mut c = MotionController::new();
    assert_eq!(c.start(CameraType::Record), Ok(()));
    c.abort();
    assert_eq!(c.status(), (false, false));
    // the controller is reusable after a fault
    assert_eq!(c.start(CameraType::Stream), Ok(()));
}

#[test]
fn debounce_no_high_sample_is_no_motion() {
    let samples = vec![false, false, false, false, false];
    assert!(!motion_from_samples(&samples));
    assert!(!motion_from_samples(&Vec::new()));
}

#[test]
fn debounce_first_high_sample_decides() {
    assert!(motion_from_samples(&vec![true]));
    assert!(motion_from_samples(&vec![false, false, false, false, true]));
}

#[test]
fn debounce_ignores_samples_past_the_window() {
    // only the first DEBOUNCE_WINDOW samples count
    let samples = vec![false, false, false, false, false, true, true];
    assert!(!motion_from_samples(&samples));
}

#[test]
fn recording_path_is_timestamped() {
    assert_eq!(
        recording_output_path("/home", 1700000000).as_str(),
        "/home/motion_1700000000.mp4"
    );
    assert_eq!(recording_output_path("", 0).as_str(), "/motion_0.mp4");
}
