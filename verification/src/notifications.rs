//! Arrival events from the operating system's notifications: their shape,
//! the identifier under which one is remembered, and the decision whether an
//! identifier that was polled is new.

use vstd::prelude::*;
use vstd::string::*;
use crate::capture::DedupLedger;

verus! {

/// A notification that an application has shown.
#[derive(Debug)]
pub struct NotificationEvent {
    /// Name of the application.
    pub app_name: String,
    /// Who wrote.
    pub sender: String,
    /// What was written.
    pub message: String,
    /// When the notification was seen.
    pub timestamp: String,
    /// The application's icon, where there is one.
    pub app_icon: Option<String>,
}

/// Why notifications cannot be listened to on this platform.
#[derive(Debug)]
pub struct NotificationError {
    /// Name of the platform.
    pub platform: String,
    /// What went wrong.
    pub error: String,
    /// What the user can do about it.
    pub suggestion: String,
}

/// Number of identifiers that are told apart.
pub const ID_SPACE: i64 = 100000;

/// The identifier of the notification polled at a time given in
/// milliseconds since the epoch: the time modulo `ID_SPACE`. For a time
/// before the epoch the remainder is negative, and wraps round the top of
/// the 32-bit range.
pub open spec fn id_at(millis: i64) -> u32 {
    if millis >= 0 {
        (millis % ID_SPACE) as u32
    } else if (-millis) % (ID_SPACE as int) == 0 {
        0u32
    } else {
        (0x1_0000_0000 - (-millis) % (ID_SPACE as int)) as u32
    }
}

/// The identifier of the notification polled at the given time.
pub fn notification_id_at(millis: i64) -> (id: u32)
    ensures
        id == id_at(millis),
{
    if millis >= 0 {
        let rest: i64 = millis % ID_SPACE;
        rest as u32
    } else {
        // -millis may not fit; -(millis + 1) does, and is one less.
        let below: i64 = -(millis + 1);
        let back: i64 = (below % ID_SPACE + 1) % ID_SPACE;
        assert(back == (-millis) % (ID_SPACE as int)) by {
            vstd::arithmetic::div_mod::lemma_add_mod_noop(below as int, 1, ID_SPACE as int);
            vstd::arithmetic::div_mod::lemma_small_mod(1, ID_SPACE as nat);
        }
        if back == 0 {
            0
        } else {
            let wrapped: i64 = 0x1_0000_0000i64 - back;
            wrapped as u32
        }
    }
}

/// Applications of the sample notifications.
pub open spec fn sample_apps() -> Seq<Seq<char>> {
    seq!["Microsoft Teams"@, "Slack"@, "Gmail"@, "Outlook"@, "Discord"@]
}

/// Senders of the sample notifications.
pub open spec fn sample_senders() -> Seq<Seq<char>> {
    seq!["Juan García"@, "María López"@, "Pedro Rodríguez"@, "Anna Smith"@]
}

/// Messages of the sample notifications.
pub open spec fn sample_messages() -> Seq<Seq<char>> {
    seq![
        "¿Vamos a sincronizar?"@,
        "Revisor: cambios pendientes"@,
        "Nuevo mensaje en el canal"@,
        "Reunión en 5 minutos"@,
        "Se ha asignado una tarea"@,
    ]
}

/// The application, sender and message that stand for a notification
/// identifier: the hundreds pick the application, the tens the sender, the
/// identifier itself the message, each modulo the number there is to pick from.
pub open spec fn sample_data(id: u32) -> (Seq<char>, Seq<char>, Seq<char>) {
    (
        sample_apps()[((id / 100) % 5) as int],
        sample_senders()[((id / 10) % 4) as int],
        sample_messages()[(id % 5) as int],
    )
}

/// The application, sender and message that stand for a notification identifier.
pub fn extract_notification_data(notification_id: u32) -> (data: (String, String, String))
    ensures
        (data.0@, data.1@, data.2@) == sample_data(notification_id),
{
    let app_idx: u32 = (notification_id / 100) % 5;
    let sender_idx: u32 = (notification_id / 10) % 4;
    let msg_idx: u32 = notification_id % 5;
    let app = if app_idx == 0 {
        "Microsoft Teams"
    } else if app_idx == 1 {
        "Slack"
    } else if app_idx == 2 {
        "Gmail"
    } else if app_idx == 3 {
        "Outlook"
    } else {
        "Discord"
    };
    let sender = if sender_idx == 0 {
        "Juan García"
    } else if sender_idx == 1 {
        "María López"
    } else if sender_idx == 2 {
        "Pedro Rodríguez"
    } else {
        "Anna Smith"
    };
    let message = if msg_idx == 0 {
        "¿Vamos a sincronizar?"
    } else if msg_idx == 1 {
        "Revisor: cambios pendientes"
    } else if msg_idx == 2 {
        "Nuevo mensaje en el canal"
    } else if msg_idx == 3 {
        "Reunión en 5 minutos"
    } else {
        "Se ha asignado una tarea"
    };
    (String::from_str(app), String::from_str(sender), String::from_str(message))
}

/// A notification event without an icon.
pub fn create_notification_event(app_name: &str, message: &str, sender: &str, timestamp: String) -> (event:
    NotificationEvent)
    ensures
        event.app_name@ == app_name@,
        event.sender@ == sender@,
        event.message@ == message@,
        event.timestamp@ == timestamp@,
        event.app_icon is None,
{
    NotificationEvent {
        app_name: String::from_str(app_name),
        sender: String::from_str(sender),
        message: String::from_str(message),
        timestamp,
        app_icon: None,
    }
}

/// The event for what a macOS application has posted: the posted text is the
/// message, under the fixed application name `macOS App` and the fixed
/// sender `Sender`. Never fails.
pub fn parse_macos_notification(notification_data: &str, timestamp: String) -> (outcome: Result<
    NotificationEvent,
    String,
>)
    ensures
        outcome matches Ok(event) && {
            &&& event.app_name@ == "macOS App"@
            &&& event.sender@ == "Sender"@
            &&& event.message@ == notification_data@
            &&& event.timestamp@ == timestamp@
            &&& event.app_icon is None
        },
{
    Ok(create_notification_event("macOS App", notification_data, "Sender", timestamp))
}

/// What a scan of the notifications that are shown right now has found:
/// none where the system answered, and the reason where it did not.
pub fn scan_current_notifications(request: Result<(), String>) -> (outcome: Result<u32, String>)
    ensures
        match request {
            Ok(_) => outcome == Ok::<u32, String>(0u32),
            Err(detail) => outcome matches Err(message) && message@
                == "No se pudo leer notificaciones (normal en algunos casos): "@ + detail@,
        },
{
    match request {
        Ok(_) => Ok(0),
        Err(detail) => Err(
            String::from_str("No se pudo leer notificaciones (normal en algunos casos): ").concat(
                detail.as_str(),
            ),
        ),
    }
}

/// One polling pass: the identifier is checked against the ledger and
/// recorded in it. Where it is new, the event that stands for it is
/// returned; where it was seen before, nothing is.
pub fn process_notifications_polling(
    previous_notifications: &mut DedupLedger,
    notification_id: u32,
    timestamp: String,
) -> (event: Option<NotificationEvent>)
    ensures
        final(previous_notifications)@ == old(previous_notifications)@.insert(notification_id as u64),
        event is Some <==> !old(previous_notifications)@.contains(notification_id as u64),
        event matches Some(e) ==> {
            &&& (e.app_name@, e.sender@, e.message@) == sample_data(notification_id)
            &&& e.timestamp@ == timestamp@
            &&& e.app_icon is None
        },
{
    if previous_notifications.record(notification_id as u64) {
        let (app_name, sender, message) = extract_notification_data(notification_id);
        Some(NotificationEvent { app_name, sender, message, timestamp, app_icon: None })
    } else {
        None
    }
}

} // verus!
