use std::hash::{Hash, Hasher};

use birdie::cdp::{
    domain_from_host, extract_domain, get_selector_configs, get_selector_for_domain,
    has_selector_for_domain, hash_string, TabInfo,
};

#[test]
fn test_extract_domain() {
    assert_eq!(extract_domain("https://meet.google.com/abc-def-ghi"), "meet.google.com");
    assert_eq!(extract_domain("https://teams.microsoft.com/v2/"), "teams.microsoft.com");
}

#[test]
fn test_has_selector_for_domain() {
    assert!(has_selector_for_domain("meet.google.com"));
    assert!(has_selector_for_domain("teams.microsoft.com"));
    assert!(!has_selector_for_domain("example.com"));
}

#[test]
fn test_get_selector_for_domain() {
    let config = get_selector_for_domain("meet.google.com");
    assert!(config.is_some());
    assert_eq!(config.unwrap().source_name, "google-meet");
}

#[test]
fn test_hash_string() {
    let hash1 = hash_string("test message");
    let hash2 = hash_string("test message");
    let hash3 = hash_string("different message");

    assert_eq!(hash1, hash2);
    assert_ne!(hash1, hash3);
}

#[test]
fn domain_of_a_text_that_is_no_url_is_empty() {
    assert_eq!(extract_domain("https://meet.google.com/abc-def"), "meet.google.com");
    assert_eq!(extract_domain("not a url"), "");
    assert_eq!(extract_domain(""), "");
    assert_eq!(extract_domain("mailto:someone@example.com"), "");
    assert_eq!(extract_domain("HTTPS://Discord.COM:8443/channels/1"), "discord.com");
}

#[test]
fn domain_from_host_keeps_the_host() {
    assert_eq!(domain_from_host(Some("web.telegram.org".to_string())), "web.telegram.org");
    assert_eq!(domain_from_host(None), "");
}

#[test]
fn selector_lookup_knows_the_catalogue_only() {
    assert!(has_selector_for_domain("discord.com"));
    assert!(!has_selector_for_domain("unknownsite.example"));
    assert!(!has_selector_for_domain("Discord.com"));
    assert!(!has_selector_for_domain(""));
    assert!(get_selector_for_domain("unknownsite.example").is_none());
}

#[test]
fn selector_catalogue_has_one_entry_per_domain() {
    let configs = get_selector_configs();
    let domains: Vec<&str> = configs.iter().map(|c| c.domain.as_str()).collect();
    assert_eq!(
        domains,
        vec!["meet.google.com", "teams.microsoft.com", "discord.com", "web.whatsapp.com", "web.telegram.org"]
    );
    let whatsapp = get_selector_for_domain("web.whatsapp.com").unwrap();
    assert_eq!(whatsapp.message_selector, "[data-testid='msg-container'] [class*='message']");
    assert_eq!(whatsapp.sender_selector, Some("[data-testid='msg-sender']".to_string()));
    assert_eq!(whatsapp.source_name, "whatsapp");
    let telegram = get_selector_for_domain("web.telegram.org").unwrap();
    assert_eq!(telegram.message_selector, ".message-content");
    assert_eq!(telegram.source_name, "telegram");
}

#[test]
fn tab_description_derives_domain_and_selector_flag() {
    let tab = TabInfo::describe(
        "7".to_string(),
        "Weekly Sync - Meet".to_string(),
        "https://meet.google.com/abc-def".to_string(),
    );
    assert_eq!(tab.id, "7");
    assert_eq!(tab.title, "Weekly Sync - Meet");
    assert_eq!(tab.domain, "meet.google.com");
    assert!(tab.has_selector);
    let other = TabInfo::describe("8".to_string(), "News".to_string(), "https://example.com/".to_string());
    assert_eq!(other.domain, "example.com");
    assert!(!other.has_selector);
    let broken = TabInfo::describe("9".to_string(), "Blank".to_string(), "not a url".to_string());
    assert_eq!(broken.domain, "");
    assert!(!broken.has_selector);
}

#[test]
fn hashes_tell_texts_apart() {
    assert_ne!(hash_string("Alice: see you at 3"), 0);
    assert_ne!(hash_string("a"), hash_string("b"));
    assert_ne!(hash_string(""), hash_string("a"));
    assert_eq!(hash_string("Reunión"), hash_string("Reunión"));
}

#[test]
fn hash_is_the_standard_hash_of_the_text() {
    for text in ["", "test message", "Alice: see you at 3", "Reunión en 5 minutos"] {
        let mut hasher = std::collections::hash_map::DefaultHasher::new();
        text.hash(&mut hasher);
        assert_eq!(hash_string(text), hasher.finish());
    }
}

#[test]
fn status_and_message_are_reachable_beside_the_tab_types() {
    let status = birdie::cdp::MonitoringStatus { is_monitoring: false, tabs_monitored: 0, interval_ms: 0 };
    assert_eq!(status, birdie::capture::CaptureSession::new().status());
    let message = birdie::cdp::CDPMessage {
        tab_id: "1".to_string(),
        tab_title: "t".to_string(),
        domain: "d".to_string(),
        sender: "s".to_string(),
        message: "m".to_string(),
        timestamp: "now".to_string(),
        source: "src".to_string(),
        content_hash: hash_string("m"),
    };
    assert_eq!(message.content_hash, hash_string(&message.message));
}
