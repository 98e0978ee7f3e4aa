use birdie::capture::{CaptureSession, CaptureState, ExecutionError};
use birdie::cdp::{find_tab, hash_string, page_tabs, require_connection, TabInfo, NOT_CONNECTED};
use birdie::context_mapper::{
    ContextMapper, ContextTask, ContextValidator, RejectionReason, TaskPriority,
};
use birdie::pipeline::{
    choose_tab, complete_cycle, contains_any_of, plan_cycle, route_event, source_name,
    CaptureEvent, DropReason,
};
use birdie::vision::TargetInfo;

fn event(source_app: &str, sender: Option<&str>) -> CaptureEvent {
    CaptureEvent {
        source_app: source_app.to_string(),
        sender: sender.map(|s| s.to_string()),
        raw_text: "new message".to_string(),
        observed_at: "2026-01-05T10:00:00+00:00".to_string(),
    }
}

fn tab(id: &str, title: &str, url: &str) -> TabInfo {
    TabInfo::describe(id.to_string(), title.to_string(), url.to_string())
}

fn active_session() -> CaptureSession {
    let mut session = CaptureSession::new();
    session.start_monitoring(1000);
    session.connection_ended(Ok(2)).unwrap();
    session
}

fn profile(name: &str) -> ContextTask {
    ContextMapper::new().get_context(name).unwrap()
}

fn discord_tab() -> TabInfo {
    tab("4", "Discord", "https://discord.com/channels/1/2")
}

#[test]
fn end_to_end_meet_message_is_emitted_once() {
    let mut mapper = ContextMapper::new();
    mapper.register_app(
        "Google Meet".to_string(),
        vec!["Meet".to_string()],
        vec!["meet.google.com".to_string()],
        "document.body.innerText".to_string(),
        TaskPriority::High,
    );
    let validator = ContextValidator::with_mapper(mapper);
    let mut session = active_session();
    let arrival = event("meet", None);

    let task = route_event(&session, &validator, &arrival.source_app).unwrap();
    assert_eq!(task.app_name, "Google Meet");
    let tabs = vec![
        tab("1", "Inbox", "https://mail.example.com/"),
        tab("2", "Weekly Sync - Meet", "https://meet.google.com/abc-def"),
    ];
    let plan = plan_cycle(&mut session, &task, &tabs).unwrap();
    assert_eq!(plan.tab_index, 1);
    assert_eq!(plan.script, "document.body.innerText");
    let message = complete_cycle(
        &mut session,
        &arrival,
        &task,
        &tabs[plan.tab_index],
        Ok("Alice: see you at 3".to_string()),
    )
    .unwrap();
    assert_eq!(message.domain, "meet.google.com");
    assert_eq!(message.source, "google-meet");
    assert_ne!(message.content_hash, 0);
    assert_eq!(message.content_hash, hash_string("Alice: see you at 3"));
    assert_eq!(message.message, "Alice: see you at 3");
    assert_eq!(message.tab_id, "2");
    assert_eq!(message.tab_title, "Weekly Sync - Meet");
    assert_eq!(message.sender, "");
    assert_eq!(message.timestamp, "2026-01-05T10:00:00+00:00");

    let again = route_event(&session, &validator, &arrival.source_app).unwrap();
    let plan = plan_cycle(&mut session, &again, &tabs).unwrap();
    let second = complete_cycle(
        &mut session,
        &arrival,
        &again,
        &tabs[plan.tab_index],
        Ok("Alice: see you at 3".to_string()),
    );
    assert!(matches!(second, Err(DropReason::Duplicate)));
    assert_eq!(session.state(), CaptureState::Active);
}

#[test]
fn events_are_routed_only_while_active_and_for_enabled_apps() {
    let mut mapper = ContextMapper::new();
    mapper.set_enabled("Slack", false);
    let validator = ContextValidator::with_mapper(mapper);
    let stopped = CaptureSession::new();
    assert!(matches!(route_event(&stopped, &validator, "Discord"), Err(DropReason::NotMonitoring)));
    assert!(matches!(route_event(&stopped, &validator, "Zoom"), Err(DropReason::NotMonitoring)));
    let session = active_session();
    assert_eq!(route_event(&session, &validator, "discord").unwrap().app_name, "Discord");
    match route_event(&session, &validator, "Slack") {
        Err(DropReason::Rejected(RejectionReason::Disabled(name))) => assert_eq!(name, "Slack"),
        other => panic!("unexpected outcome: {:?}", other),
    }
    match route_event(&session, &validator, "Zoom") {
        Err(DropReason::Rejected(RejectionReason::Unmapped(name))) => assert_eq!(name, "Zoom"),
        other => panic!("unexpected outcome: {:?}", other),
    }
    let mut stopping = active_session();
    stopping.begin_extraction();
    stopping.stop_monitoring();
    assert!(matches!(route_event(&stopping, &validator, "Discord"), Err(DropReason::NotMonitoring)));
}

#[test]
fn contains_any_of_ignores_case() {
    let candidates = vec!["Teams".to_string(), "Microsoft Teams".to_string()];
    assert!(contains_any_of("Chat | microsoft teams", &candidates));
    assert!(contains_any_of("TEAMS", &candidates));
    assert!(!contains_any_of("Team", &candidates));
    assert!(!contains_any_of("anything", &Vec::new()));
}

#[test]
fn tab_is_chosen_by_title_or_by_domain() {
    let slack = profile("Slack");
    let tabs = vec![
        tab("1", "Inbox", "https://mail.example.com/"),
        tab("2", "general - Acme", "https://app.slack.com/client/T1/C1"),
        tab("3", "Slack | threads", "https://example.org/"),
    ];
    assert_eq!(choose_tab(&tabs, &slack), Some(1));
    let by_title = vec![
        tab("1", "Inbox", "https://mail.example.com/"),
        tab("3", "SLACK | threads", "https://example.org/"),
    ];
    assert_eq!(choose_tab(&by_title, &slack), Some(1));
    assert_eq!(choose_tab(&tabs[..1].to_vec(), &slack), None);
    assert_eq!(choose_tab(&Vec::new(), &slack), None);
}

#[test]
fn plan_drops_the_cycle_without_a_tab_or_while_busy() {
    let discord = profile("Discord");
    let tabs = vec![tab("1", "Inbox", "https://mail.example.com/"), discord_tab()];
    let mut session = active_session();
    assert!(matches!(plan_cycle(&mut session, &discord, &tabs[..1].to_vec()), Err(DropReason::NoTab)));
    assert!(!session.awaits_extraction());
    let plan = plan_cycle(&mut session, &discord, &tabs).unwrap();
    assert_eq!(plan.tab_index, 1);
    assert_eq!(plan.script, discord.css_selector);
    assert!(session.awaits_extraction());
    assert!(matches!(plan_cycle(&mut session, &discord, &tabs), Err(DropReason::Busy)));
    assert!(matches!(plan_cycle(&mut session, &discord, &Vec::new()), Err(DropReason::NoTab)));
    session.stop_monitoring();
    assert!(matches!(plan_cycle(&mut session, &discord, &tabs), Err(DropReason::NotMonitoring)));
    let mut stopped = CaptureSession::new();
    assert!(matches!(plan_cycle(&mut stopped, &discord, &tabs), Err(DropReason::NotMonitoring)));
    assert_eq!(stopped.state(), CaptureState::Stopped);
}

#[test]
fn source_is_the_catalogue_name_or_the_app_name() {
    assert_eq!(source_name("meet.google.com", "Google Meet"), "google-meet");
    assert_eq!(source_name("web.whatsapp.com", "WhatsApp"), "whatsapp");
    assert_eq!(source_name("app.slack.com", "Slack"), "Slack");
    assert_eq!(source_name("", "Native"), "Native");
}

#[test]
fn cycle_keeps_the_sender_of_the_arrival() {
    let mut session = active_session();
    let arrival = event("Slack", Some("Bob"));
    let slack = profile("Slack");
    let slack_tab = tab("2", "general - Acme", "https://app.slack.com/client/T1/C1");
    session.begin_extraction();
    let message = complete_cycle(&mut session, &arrival, &slack, &slack_tab, Ok("hi".to_string())).unwrap();
    assert_eq!(message.sender, "Bob");
    assert_eq!(message.source, "Slack");
    assert_eq!(message.domain, "app.slack.com");
}

#[test]
fn failed_extraction_drops_the_cycle_and_the_session_goes_on() {
    let mut session = active_session();
    let arrival = event("Discord", None);
    let discord = profile("Discord");
    session.begin_extraction();
    let dropped = complete_cycle(&mut session, &arrival, &discord, &discord_tab(), Err(ExecutionError::TabVanished));
    assert!(matches!(dropped, Err(DropReason::ExecutionFailed(ExecutionError::TabVanished))));
    assert_eq!(session.state(), CaptureState::Active);
    assert!(!session.awaits_extraction());
    session.begin_extraction();
    let failed = ExecutionError::ScriptFailed("ReferenceError".to_string());
    match complete_cycle(&mut session, &arrival, &discord, &discord_tab(), Err(failed)) {
        Err(DropReason::ExecutionFailed(reason)) => {
            assert_eq!(reason, ExecutionError::ScriptFailed("ReferenceError".to_string()))
        }
        other => panic!("unexpected outcome: {:?}", other),
    }
    session.begin_extraction();
    assert!(complete_cycle(&mut session, &arrival, &discord, &discord_tab(), Ok("hello".to_string())).is_ok());
}

#[test]
fn cycle_without_dispatch_emits_nothing() {
    let mut session = active_session();
    let arrival = event("Discord", None);
    let discord = profile("Discord");
    let dropped = complete_cycle(&mut session, &arrival, &discord, &discord_tab(), Ok("hello".to_string()));
    assert!(matches!(dropped, Err(DropReason::NotDispatched)));
    assert!(!session.has_emitted(hash_string("hello")));
    let dropped = complete_cycle(&mut session, &arrival, &discord, &discord_tab(), Err(ExecutionError::TimedOut));
    assert!(matches!(dropped, Err(DropReason::NotDispatched)));
    let mut stopped = CaptureSession::new();
    let dropped = complete_cycle(&mut stopped, &arrival, &discord, &discord_tab(), Ok("hello".to_string()));
    assert!(matches!(dropped, Err(DropReason::NotDispatched)));
}

#[test]
fn stop_during_extraction_ends_stopped_without_a_message() {
    let mut session = active_session();
    let arrival = event("Discord", None);
    let discord = profile("Discord");
    assert!(session.begin_extraction());
    let status = session.stop_monitoring();
    assert!(!status.is_monitoring);
    let emitted = complete_cycle(&mut session, &arrival, &discord, &discord_tab(), Ok("hello".to_string()));
    assert!(matches!(emitted, Err(DropReason::Stopped)));
    assert_eq!(session.state(), CaptureState::Stopped);
    assert!(!session.status().is_monitoring);

    let mut session = active_session();
    session.begin_extraction();
    session.stop_monitoring();
    let failed = ExecutionError::ConnectionDropped("reset".to_string());
    let emitted = complete_cycle(&mut session, &arrival, &discord, &discord_tab(), Err(failed));
    assert!(matches!(emitted, Err(DropReason::Stopped)));
    assert_eq!(session.state(), CaptureState::Stopped);
}

#[test]
fn page_tabs_describes_pages_only() {
    let targets = vec![
        TargetInfo {
            target_id: "w".to_string(),
            kind: "service_worker".to_string(),
            title: "sw".to_string(),
            url: "https://discord.com/sw.js".to_string(),
        },
        TargetInfo {
            target_id: "p".to_string(),
            kind: "page".to_string(),
            title: "Discord | general".to_string(),
            url: "https://discord.com/channels/1/2".to_string(),
        },
        TargetInfo {
            target_id: "q".to_string(),
            kind: "page".to_string(),
            title: "Blank".to_string(),
            url: "about:blank".to_string(),
        },
    ];
    let tabs = page_tabs(&targets);
    assert_eq!(tabs.len(), 2);
    assert_eq!(tabs[0].id, "p");
    assert_eq!(tabs[0].domain, "discord.com");
    assert!(tabs[0].has_selector);
    assert_eq!(tabs[1].id, "q");
    assert_eq!(tabs[1].domain, "");
    assert!(!tabs[1].has_selector);
}

#[test]
fn find_tab_matches_titles_ignoring_case() {
    let tabs = vec![
        tab("1", "Inbox", "https://mail.example.com/"),
        tab("2", "Weekly Sync - Meet", "https://meet.google.com/abc-def"),
        tab("3", "meet again", "https://meet.google.com/xyz"),
    ];
    assert_eq!(find_tab(&tabs, "MEET").unwrap().id, "2");
    assert_eq!(find_tab(&tabs, "again").unwrap().id, "3");
    assert!(find_tab(&tabs, "zoom").is_none());
    assert!(find_tab(&Vec::new(), "meet").is_none());
}

#[test]
fn browser_can_be_asked_where_a_connection_is_held() {
    assert_eq!(require_connection(true), Ok(()));
    assert_eq!(require_connection(false), Err(NOT_CONNECTED.to_string()));
    assert_eq!(
        require_connection(false),
        Err("No hay conexión con Chrome. Conecta primero.".to_string())
    );
}

#[test]
fn found_tab_keeps_what_was_derived_from_its_address() {
    let tabs = vec![
        tab("1", "Inbox", "https://mail.example.com/"),
        tab("2", "Weekly Sync - Meet", "https://meet.google.com/abc-def"),
    ];
    let found = find_tab(&tabs, "Meet").unwrap();
    assert_eq!(found.title, "Weekly Sync - Meet");
    assert_eq!(found.url, "https://meet.google.com/abc-def");
    assert_eq!(found.domain, "meet.google.com");
    assert!(found.has_selector);
    let inbox = find_tab(&tabs, "inbox").unwrap();
    assert_eq!(inbox.domain, "mail.example.com");
    assert!(!inbox.has_selector);
}
