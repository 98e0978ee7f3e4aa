use birdie::capture::DedupLedger;
use birdie::notifications::{
    create_notification_event, extract_notification_data, notification_id_at,
    parse_macos_notification, process_notifications_polling, scan_current_notifications,
    NotificationError,
};

fn data(id: u32) -> (String, String, String) {
    extract_notification_data(id)
}

fn triple(a: &str, b: &str, c: &str) -> (String, String, String) {
    (a.to_string(), b.to_string(), c.to_string())
}

#[test]
fn sample_data_is_picked_by_the_digits_of_the_identifier() {
    assert_eq!(data(0), triple("Microsoft Teams", "Juan García", "¿Vamos a sincronizar?"));
    assert_eq!(data(1), triple("Microsoft Teams", "Juan García", "Revisor: cambios pendientes"));
    assert_eq!(data(12), triple("Microsoft Teams", "María López", "Nuevo mensaje en el canal"));
    assert_eq!(data(134), triple("Slack", "María López", "Se ha asignado una tarea"));
    assert_eq!(data(499), triple("Discord", "María López", "Se ha asignado una tarea"));
    assert_eq!(data(500), triple("Microsoft Teams", "Pedro Rodríguez", "¿Vamos a sincronizar?"));
    assert_eq!(data(99999), triple("Discord", "Anna Smith", "Se ha asignado una tarea"));
    assert_eq!(data(u32::MAX), triple("Gmail", "María López", "¿Vamos a sincronizar?"));
    assert_eq!(data(238).0, "Gmail");
    assert_eq!(data(303).0, "Outlook");
    assert_eq!(data(303).2, "Reunión en 5 minutos");
}

#[test]
fn identifier_is_the_time_modulo_one_hundred_thousand() {
    assert_eq!(notification_id_at(0), 0);
    assert_eq!(notification_id_at(99_999), 99_999);
    assert_eq!(notification_id_at(100_000), 0);
    assert_eq!(notification_id_at(1_767_607_200_123), 7_200_123 % 100_000);
    assert_eq!(notification_id_at(i64::MAX), (i64::MAX % 100_000) as u32);
}

#[test]
fn identifier_of_a_time_before_the_epoch_wraps() {
    assert_eq!(notification_id_at(-1), u32::MAX);
    assert_eq!(notification_id_at(-100_000), 0);
    assert_eq!(notification_id_at(-100_001), u32::MAX);
    for millis in [-1i64, -99_999, -100_000, -123_456_789, i64::MIN + 1, i64::MIN] {
        assert_eq!(notification_id_at(millis), (millis % 100_000) as u32);
    }
}

#[test]
fn polling_emits_each_identifier_once() {
    let mut seen = DedupLedger::new();
    let first = process_notifications_polling(&mut seen, 134, "t1".to_string()).unwrap();
    assert_eq!(first.app_name, "Slack");
    assert_eq!(first.sender, "María López");
    assert_eq!(first.message, "Se ha asignado una tarea");
    assert_eq!(first.timestamp, "t1");
    assert_eq!(first.app_icon, None);
    assert!(process_notifications_polling(&mut seen, 134, "t2".to_string()).is_none());
    assert!(process_notifications_polling(&mut seen, 135, "t3".to_string()).is_some());
    assert!(process_notifications_polling(&mut seen, 134, "t4".to_string()).is_none());
    assert_eq!(seen.len(), 2);
    assert!(seen.contains(134));
}

#[test]
fn created_event_has_its_fields_and_no_icon() {
    let event = create_notification_event("Slack", "hello", "Bob", "2026-01-05T10:00:00+00:00".to_string());
    assert_eq!(event.app_name, "Slack");
    assert_eq!(event.message, "hello");
    assert_eq!(event.sender, "Bob");
    assert_eq!(event.timestamp, "2026-01-05T10:00:00+00:00");
    assert_eq!(event.app_icon, None);
}

#[test]
fn macos_notification_becomes_an_event() {
    let event = parse_macos_notification("payload", "now".to_string()).unwrap();
    assert_eq!(event.app_name, "macOS App");
    assert_eq!(event.sender, "Sender");
    assert_eq!(event.message, "payload");
    assert_eq!(event.timestamp, "now");
    assert_eq!(event.app_icon, None);
}

#[test]
fn scan_reports_no_notifications_or_the_reason() {
    assert_eq!(scan_current_notifications(Ok(())), Ok(0));
    assert_eq!(
        scan_current_notifications(Err("denied".to_string())),
        Err("No se pudo leer notificaciones (normal en algunos casos): denied".to_string())
    );
}

#[test]
fn notification_error_holds_its_three_texts() {
    let error = NotificationError {
        platform: "linux".to_string(),
        error: "no session bus".to_string(),
        suggestion: "start a session".to_string(),
    };
    assert_eq!(error.platform, "linux");
    assert_eq!(error.error, "no session bus");
    assert_eq!(error.suggestion, "start a session");
}
