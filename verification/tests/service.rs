use std::time::{Duration, Instant};

use stahlwerk_extension::service::{StageOneService, State};

#[test]
fn new_service_is_disabled_and_unconnected() {
    let svc: StageOneService<u8> = StageOneService::new(Duration::from_millis(2000));
    assert!(!svc.is_enabled());
    assert!(!svc.is_connected());
    assert_eq!(svc.state, State::Zero);
    assert_eq!(svc.request_timeout, Duration::from_millis(2000));
}

#[test]
fn enable_and_disable() {
    let mut svc: StageOneService<u8> = StageOneService::new(Duration::from_millis(10));
    svc.set_enabled(true);
    assert!(svc.is_enabled());
    svc.set_enabled(true);
    assert!(svc.is_enabled());
    svc.set_enabled(false);
    assert!(!svc.is_enabled());
}

#[test]
fn connect_and_disconnect() {
    let mut svc: StageOneService<u8> = StageOneService::new(Duration::from_millis(10));
    assert!(svc.begin_connect());
    assert!(svc.finish_connect(Ok(7)).is_ok());
    assert!(svc.is_connected());
    assert_eq!(svc.client, Some(7));
    assert!(!svc.begin_connect());
    assert_eq!(svc.client, Some(7));
    svc.disconnect();
    assert!(!svc.is_connected());
    assert_eq!(svc.state, State::Zero);
}

#[test]
fn failed_connection_leaves_the_service_unconnected() {
    let mut svc: StageOneService<u8> = StageOneService::new(Duration::from_millis(10));
    assert!(svc.begin_connect());
    let r = svc.finish_connect(Err(anyhow::Error::msg("no config")));
    assert_eq!(r.unwrap_err().to_string(), "no config");
    assert!(!svc.is_connected());
}

#[test]
fn update_succeeds_and_changes_nothing() {
    let mut svc: StageOneService<u8> = StageOneService::new(Duration::from_millis(10));
    assert!(svc.update(Instant::now(), 3).is_ok());
    svc.set_enabled(true);
    assert!(svc.begin_connect());
    assert!(svc.finish_connect(Ok(1)).is_ok());
    assert!(svc.update(Instant::now(), 3).is_ok());
    assert!(svc.is_enabled());
    assert!(svc.is_connected());
    assert_eq!(svc.state, State::Zero);
}
