use birdie::capture::{
    CaptureSession, CaptureState, ConnectionError, DedupLedger, MonitoringStatus,
};

fn unreachable() -> ConnectionError {
    ConnectionError::Unreachable("connection refused".to_string())
}

fn active_session() -> CaptureSession {
    let mut session = CaptureSession::new();
    assert!(session.start_monitoring(1500));
    session.connection_ended(Ok(3)).unwrap();
    session
}

#[test]
fn ledger_records_each_hash_once() {
    let mut ledger = DedupLedger::new();
    assert_eq!(ledger.len(), 0);
    assert!(!ledger.contains(7));
    assert!(ledger.record(7));
    assert!(ledger.contains(7));
    assert!(!ledger.record(7));
    assert!(ledger.record(8));
    assert_eq!(ledger.len(), 2);
    ledger.clear();
    assert_eq!(ledger.len(), 0);
    assert!(ledger.record(7));
}

#[test]
fn new_session_is_at_rest() {
    let session = CaptureSession::new();
    assert_eq!(session.state(), CaptureState::Stopped);
    assert!(!session.awaits_extraction());
    assert_eq!(
        session.status(),
        MonitoringStatus { is_monitoring: false, tabs_monitored: 0, interval_ms: 0 }
    );
}

#[test]
fn start_connects_and_becomes_active() {
    let mut session = CaptureSession::new();
    assert!(session.start_monitoring(2000));
    assert_eq!(session.state(), CaptureState::Starting);
    assert_eq!(
        session.status(),
        MonitoringStatus { is_monitoring: false, tabs_monitored: 0, interval_ms: 2000 }
    );
    assert!(!session.start_monitoring(9));
    assert_eq!(session.status().interval_ms, 2000);
    let status = session.connection_ended(Ok(4)).unwrap();
    assert_eq!(status, MonitoringStatus { is_monitoring: true, tabs_monitored: 4, interval_ms: 2000 });
    assert_eq!(session.state(), CaptureState::Active);
    assert!(!session.start_monitoring(9));
    assert_eq!(session.connection_ended(Err(unreachable())), Ok(status));
    assert_eq!(session.connection_ended(Ok(9)), Ok(status));
}

#[test]
fn failed_connection_goes_back_to_rest() {
    let mut session = CaptureSession::new();
    session.start_monitoring(2000);
    let surfaced = session.connection_ended(Err(unreachable()));
    assert_eq!(surfaced, Err(ConnectionError::Unreachable("connection refused".to_string())));
    assert_eq!(session.state(), CaptureState::Stopped);
    assert_eq!(
        session.status(),
        MonitoringStatus { is_monitoring: false, tabs_monitored: 0, interval_ms: 0 }
    );
    assert!(session.start_monitoring(100));
    assert_eq!(session.connection_ended(Err(ConnectionError::TimedOut)), Err(ConnectionError::TimedOut));
    assert!(session.start_monitoring(100));
    assert_eq!(
        session.connection_ended(Err(ConnectionError::NegotiationFailed("no websocket".to_string()))),
        Err(ConnectionError::NegotiationFailed("no websocket".to_string()))
    );
}

#[test]
fn connection_report_is_ignored_unless_starting() {
    let mut session = CaptureSession::new();
    let rest = MonitoringStatus { is_monitoring: false, tabs_monitored: 0, interval_ms: 0 };
    assert_eq!(session.connection_ended(Ok(3)), Ok(rest));
    assert_eq!(session.connection_ended(Err(unreachable())), Ok(rest));
    assert_eq!(session.state(), CaptureState::Stopped);
    assert_eq!(session.status().tabs_monitored, 0);
}

#[test]
fn extraction_is_dispatched_only_while_active_and_idle() {
    let mut session = CaptureSession::new();
    assert!(!session.begin_extraction());
    session.start_monitoring(10);
    assert!(!session.begin_extraction());
    session.connection_ended(Ok(1));
    assert!(session.begin_extraction());
    assert!(session.awaits_extraction());
    assert!(!session.begin_extraction());
    assert!(session.end_extraction(None) == false);
    assert!(!session.awaits_extraction());
    assert!(session.begin_extraction());
}

#[test]
fn same_hash_twice_emits_once() {
    let mut session = active_session();
    assert!(session.begin_extraction());
    assert!(session.end_extraction(Some(42)));
    assert!(session.has_emitted(42));
    assert!(session.begin_extraction());
    assert!(!session.end_extraction(Some(42)));
    assert!(session.begin_extraction());
    assert!(session.end_extraction(Some(43)));
    assert!(session.begin_extraction());
    assert!(!session.end_extraction(Some(42)));
    assert_eq!(session.state(), CaptureState::Active);
}

#[test]
fn failed_extraction_emits_nothing_and_does_not_stop_the_session() {
    let mut session = active_session();
    session.begin_extraction();
    assert!(!session.end_extraction(None));
    assert_eq!(session.state(), CaptureState::Active);
    assert!(session.status().is_monitoring);
    session.begin_extraction();
    assert!(session.end_extraction(Some(1)));
}

#[test]
fn end_without_begin_changes_nothing() {
    let mut session = active_session();
    assert!(!session.end_extraction(Some(5)));
    assert!(!session.has_emitted(5));
    session.begin_extraction();
    assert!(session.end_extraction(Some(5)));
}

#[test]
fn stop_while_idle_rests_at_once() {
    let mut session = active_session();
    session.begin_extraction();
    session.end_extraction(Some(5));
    let status = session.stop_monitoring();
    assert_eq!(status, MonitoringStatus { is_monitoring: false, tabs_monitored: 0, interval_ms: 0 });
    assert_eq!(session.state(), CaptureState::Stopped);
    assert!(!session.has_emitted(5));
}

#[test]
fn stop_during_extraction_waits_then_rests() {
    let mut session = active_session();
    session.begin_extraction();
    session.end_extraction(Some(5));
    assert!(session.begin_extraction());
    let status = session.stop_monitoring();
    assert_eq!(status, MonitoringStatus { is_monitoring: false, tabs_monitored: 0, interval_ms: 0 });
    assert_eq!(session.status(), status);
    assert_eq!(session.state(), CaptureState::Stopping);
    assert!(!session.begin_extraction());
    assert!(!session.start_monitoring(1));
    assert_eq!(session.stop_monitoring(), status);
    assert!(!session.end_extraction(Some(77)));
    assert_eq!(session.state(), CaptureState::Stopped);
    assert_eq!(
        session.status(),
        MonitoringStatus { is_monitoring: false, tabs_monitored: 0, interval_ms: 0 }
    );
    assert!(!session.has_emitted(5));
    assert!(!session.has_emitted(77));
}

#[test]
fn stop_during_failed_extraction_rests_too() {
    let mut session = active_session();
    session.begin_extraction();
    session.stop_monitoring();
    assert!(!session.end_extraction(None));
    assert_eq!(session.state(), CaptureState::Stopped);
    assert!(!session.status().is_monitoring);
}

#[test]
fn stop_while_starting_or_stopped_rests() {
    let mut session = CaptureSession::new();
    assert!(!session.stop_monitoring().is_monitoring);
    assert_eq!(session.state(), CaptureState::Stopped);
    session.start_monitoring(5);
    session.stop_monitoring();
    assert_eq!(session.state(), CaptureState::Stopped);
    assert!(session.connection_ended(Ok(2)).is_ok());
    assert_eq!(session.state(), CaptureState::Stopped);
}

#[test]
fn restart_begins_with_an_empty_ledger() {
    let mut session = active_session();
    session.begin_extraction();
    assert!(session.end_extraction(Some(9)));
    session.stop_monitoring();
    assert!(session.start_monitoring(10));
    session.connection_ended(Ok(1));
    assert!(!session.has_emitted(9));
    session.begin_extraction();
    assert!(session.end_extraction(Some(9)));
}

#[test]
fn stop_shows_the_same_snapshot_from_every_state() {
    let idle = MonitoringStatus { is_monitoring: false, tabs_monitored: 0, interval_ms: 0 };
    let mut stopped = CaptureSession::new();
    assert_eq!(stopped.stop_monitoring(), idle);
    assert_eq!(stopped.stop_monitoring(), idle);
    let mut starting = CaptureSession::new();
    starting.start_monitoring(1000);
    assert_eq!(starting.stop_monitoring(), idle);
    let mut active = active_session();
    assert_eq!(active.status(), MonitoringStatus { is_monitoring: true, tabs_monitored: 3, interval_ms: 1500 });
    assert_eq!(active.stop_monitoring(), idle);
    let mut busy = active_session();
    busy.begin_extraction();
    assert_eq!(busy.stop_monitoring(), idle);
    assert_eq!(busy.stop_monitoring(), idle);
    busy.end_extraction(Some(1));
    assert_eq!(busy.status(), idle);
    assert_eq!(busy.stop_monitoring(), idle);
}
