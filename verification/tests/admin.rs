use birdie::admin::{get_search_targets, greet, should_process_app, validate_app_context};
use birdie::cdp::{connection_report, script_report};
use birdie::context_mapper::{ContextMapper, ContextValidator, TaskPriority};

fn validator_with_slack_off() -> ContextValidator {
    let mut mapper = ContextMapper::new();
    mapper.set_enabled("Slack", false);
    mapper.set_priority("Telegram", TaskPriority::Low);
    ContextValidator::with_mapper(mapper)
}

#[test]
fn greeting_names_the_guest() {
    assert_eq!(greet("Ana"), "Hello, Ana! You've been greeted from Rust!");
    assert_eq!(greet(""), "Hello, ! You've been greeted from Rust!");
}

#[test]
fn validation_answers_with_the_profile_or_the_sentence() {
    let validator = validator_with_slack_off();
    assert_eq!(validate_app_context(&validator, "meet").unwrap().app_name, "Google Meet");
    assert_eq!(
        validate_app_context(&validator, "Slack").unwrap_err(),
        "Aplicación 'Slack' está deshabilitada para procesamiento CDP"
    );
    assert_eq!(
        validate_app_context(&validator, "Zoom").unwrap_err(),
        "No hay mapeo de contexto para la aplicación 'Zoom'"
    );
}

#[test]
fn search_targets_are_given_for_processed_apps_only() {
    let validator = validator_with_slack_off();
    assert_eq!(
        get_search_targets(&validator, "whatsapp").unwrap(),
        vec!["WhatsApp".to_string(), "WhatsApp Web".to_string()]
    );
    assert_eq!(
        get_search_targets(&validator, "slack").unwrap_err(),
        "Aplicación 'slack' está deshabilitada para procesamiento CDP"
    );
    assert_eq!(
        get_search_targets(&validator, "Zoom").unwrap_err(),
        "No hay mapeo de contexto para la aplicación 'Zoom'"
    );
}

#[test]
fn apps_are_processed_at_normal_priority_and_above() {
    let validator = validator_with_slack_off();
    assert!(should_process_app(&validator, "Google Meet"));
    assert!(should_process_app(&validator, "WhatsApp"));
    assert!(!should_process_app(&validator, "Telegram"));
    assert!(!should_process_app(&validator, "Slack"));
    assert!(!should_process_app(&validator, "Zoom"));
}

#[test]
fn connection_report_says_how_the_attempt_ended() {
    let ok = connection_report(Some(5));
    assert!(ok.success);
    assert_eq!(ok.message, "Connected to Chrome");
    assert_eq!(ok.tabs_count, 5);
    assert_eq!(ok.error_help_url, None);
    let failed = connection_report(None);
    assert!(!failed.success);
    assert_eq!(failed.message, "CDP connection requires Chrome --remote-debugging-port=9222");
    assert_eq!(failed.tabs_count, 0);
    assert_eq!(
        failed.error_help_url,
        Some("https://github.com/SergioPachon/Birdie/wiki/Chrome-DevTools-Setup".to_string())
    );
}

#[test]
fn script_report_says_how_the_script_ended() {
    let ok = script_report(Ok("42".to_string()));
    assert!(ok.success);
    assert_eq!(ok.result, Some("42".to_string()));
    assert_eq!(ok.error, None);
    let failed = script_report(Err("ReferenceError".to_string()));
    assert!(!failed.success);
    assert_eq!(failed.result, None);
    assert_eq!(failed.error, Some("ReferenceError".to_string()));
}
