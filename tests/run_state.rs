use libogl::error::OglError;
use libogl::run_state::{elapsed_milliseconds, elapsed_seconds, requests_stop, InputEvent, RunState};

#[test]
fn elapsed_fails_before_run() {
    let rs = RunState::new();
    assert!(!rs.is_running());
    assert_eq!(elapsed_seconds(&rs, 5_000), Err(OglError::Unexpected));
    assert_eq!(elapsed_milliseconds(&rs, 5_000), Err(OglError::Unexpected));
}

#[test]
fn elapsed_after_run_is_monotonic() {
    let mut rs = RunState::new();
    assert_eq!(rs.global_run(1_000), Ok(()));
    assert!(rs.is_running());
    assert_eq!(elapsed_milliseconds(&rs, 1_000), Ok(0));
    assert_eq!(elapsed_milliseconds(&rs, 3_499), Ok(2_499));
    assert_eq!(elapsed_seconds(&rs, 3_499), Ok(2));
    let mut last = 0;
    for now in [1_000u64, 1_001, 1_999, 2_000, 7_500, 7_500, 90_000] {
        let e = elapsed_milliseconds(&rs, now).unwrap();
        assert!(e >= last);
        last = e;
    }
    assert_eq!(elapsed_seconds(&rs, 90_000), Ok(89));
}

#[test]
fn run_starts_once() {
    let mut rs = RunState::new();
    rs.global_run(10).unwrap();
    assert_eq!(rs.global_run(20), Err(OglError::Unexpected));
    assert_eq!(elapsed_milliseconds(&rs, 30), Ok(20));
}

#[test]
fn stop_is_idempotent() {
    let mut rs = RunState::new();
    rs.global_run(0).unwrap();
    rs.global_stop();
    assert!(!rs.is_running());
    rs.global_stop();
    assert!(!rs.is_running());
    assert_eq!(elapsed_seconds(&rs, 4_000), Ok(4));
}

#[test]
fn stop_events() {
    assert!(requests_stop(&InputEvent::Quit));
    assert!(requests_stop(&InputEvent::SdlKeyDown(27)));
    assert!(!requests_stop(&InputEvent::SdlKeyDown(32)));
    assert!(requests_stop(&InputEvent::WaylandKeyPressed(1)));
    assert!(!requests_stop(&InputEvent::WaylandKeyPressed(2)));
    assert!(!requests_stop(&InputEvent::Other));

    let mut rs = RunState::new();
    rs.global_run(0).unwrap();
    rs.handle_event(&InputEvent::Other);
    assert!(rs.is_running());
    rs.handle_event(&InputEvent::WaylandKeyPressed(1));
    assert!(!rs.is_running());
}
