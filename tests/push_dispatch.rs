use conduit_core::error::Error;
use conduit_core::push::{
    build_notice, decide, notification_priority, Action, EventType, HttpPusherData,
    NotificationPriority, PduEvent, PushFormat, Pusher, PusherIds, PusherKind, Tweak,
};
use conduit_core::pusher::Service;

fn http_pusher(format: Option<PushFormat>) -> Pusher {
    Pusher {
        ids: PusherIds { pushkey: "key1".to_string(), app_id: "org.example.app".to_string() },
        kind: PusherKind::Http(HttpPusherData {
            url: "https://push.example.org/_matrix/push/v1/notify".to_string(),
            format,
            default_payload: Some("{\"aps\":{}}".to_string()),
        }),
        app_display_name: "App".to_string(),
        device_display_name: "Phone".to_string(),
        profile_tag: None,
        lang: "en".to_string(),
    }
}

fn pusher_of_kind(kind: PusherKind) -> Pusher {
    let mut p = http_pusher(None);
    p.kind = kind;
    p
}

fn message_event(kind: EventType) -> PduEvent {
    PduEvent {
        event_id: "$ev1".to_string(),
        room_id: "!room:example.org".to_string(),
        sender: "@alice:example.org".to_string(),
        kind,
        content: "{\"body\":\"hi\"}".to_string(),
        state_key: None,
    }
}

fn room_name(name: &str) -> Option<String> {
    Some(format!("{{\"name\":\"{}\"}}", name))
}

#[test]
fn single_notify_sends() {
    let svc = Service::new();
    let actions = vec![Action::Notify];
    let r = svc.send_push_notice(
        3,
        &http_pusher(None),
        &actions,
        &message_event(EventType::Other("m.room.message".to_string())),
        None,
        None,
    );
    let notice = r.unwrap().expect("a notice is built");
    assert_eq!(notice.destination, "https://push.example.org/_matrix/push/v1/notify");
    assert_eq!(notice.notification.counts.unread, 3);
    assert_eq!(notice.notification.counts.missed_calls, 0);
}

#[test]
fn single_dont_notify_sends_nothing() {
    let svc = Service::new();
    let actions = vec![Action::DontNotify, Action::SetTweak(Tweak::Highlight(true))];
    let r = svc.send_push_notice(1, &http_pusher(None), &actions, &message_event(EventType::RoomMember), None, None);
    assert!(matches!(r, Ok(None)));
}

#[test]
fn single_coalesce_sends_nothing() {
    let svc = Service::new();
    let r = svc.send_push_notice(1, &http_pusher(None), &vec![Action::Coalesce], &message_event(EventType::RoomMember), None, None);
    assert!(matches!(r, Ok(None)));
}

#[test]
fn no_notify_class_action_sends_nothing() {
    let svc = Service::new();
    let actions = vec![Action::SetTweak(Tweak::Sound("default".to_string()))];
    let r = svc.send_push_notice(1, &http_pusher(None), &actions, &message_event(EventType::RoomMember), None, None);
    assert!(matches!(r, Ok(None)));
}

#[test]
fn conflicting_actions_are_malformed() {
    let svc = Service::new();
    let actions = vec![Action::Notify, Action::SetTweak(Tweak::Highlight(true)), Action::DontNotify];
    let r = svc.send_push_notice(1, &http_pusher(None), &actions, &message_event(EventType::RoomMember), None, None);
    assert!(matches!(r, Err(Error::MalformedPushRule)));
    let r2 = svc.send_push_notice(1, &http_pusher(None), &vec![Action::Coalesce, Action::Coalesce], &message_event(EventType::RoomMember), None, None);
    assert!(matches!(r2, Err(Error::MalformedPushRule)));
}

#[test]
fn decide_collects_tweaks_in_order() {
    let actions = vec![
        Action::SetTweak(Tweak::Sound("bell".to_string())),
        Action::Notify,
        Action::SetTweak(Tweak::Highlight(false)),
    ];
    let d = decide(&actions).unwrap();
    assert_eq!(d.notify, Some(true));
    assert_eq!(d.tweaks.len(), 2);
    assert!(matches!(&d.tweaks[0], Tweak::Sound(s) if s == "bell"));
    assert!(matches!(&d.tweaks[1], Tweak::Highlight(false)));
    let none = decide(&vec![]).unwrap();
    assert_eq!(none.notify, None);
    assert!(none.tweaks.is_empty());
}

#[test]
fn event_id_only_payload_is_minimal() {
    let svc = Service::new();
    let actions = vec![Action::Notify, Action::SetTweak(Tweak::Sound("bell".to_string()))];
    let r = svc.send_push_notice(
        2,
        &http_pusher(Some(PushFormat::EventIdOnly)),
        &actions,
        &message_event(EventType::Other("m.room.message".to_string())),
        Some("Alice".to_string()),
        Some("not json".to_string()),
    );
    let n = r.unwrap().unwrap().notification;
    assert_eq!(n.devices.len(), 1);
    assert!(n.devices[0].tweaks.is_empty());
    assert_eq!(n.devices[0].data.format, Some(PushFormat::EventIdOnly));
    assert_eq!(n.event_id.as_deref(), Some("$ev1"));
    assert_eq!(n.room_id.as_deref(), Some("!room:example.org"));
    assert!(n.sender.is_none());
    assert!(n.event_type.is_none());
    assert!(n.content.is_none());
    assert!(n.sender_display_name.is_none());
    assert!(n.room_name.is_none());
    assert!(!n.user_is_target);
    assert_eq!(n.prio, NotificationPriority::High);
}

#[test]
fn full_payload_carries_event_details() {
    let svc = Service::new();
    let actions = vec![Action::Notify, Action::SetTweak(Tweak::Highlight(false))];
    let mut ev = message_event(EventType::RoomMember);
    ev.state_key = Some("@alice:example.org".to_string());
    let r = svc.send_push_notice(5, &http_pusher(None), &actions, &ev, Some("Alice".to_string()), room_name("Lobby"));
    let n = r.unwrap().unwrap().notification;
    assert_eq!(n.devices[0].app_id, "org.example.app");
    assert_eq!(n.devices[0].pushkey, "key1");
    assert_eq!(n.devices[0].data.default_payload.as_deref(), Some("{\"aps\":{}}"));
    assert_eq!(n.devices[0].tweaks.len(), 1);
    assert_eq!(n.sender.as_deref(), Some("@alice:example.org"));
    assert!(matches!(n.event_type, Some(EventType::RoomMember)));
    assert_eq!(n.content.as_deref(), Some("{\"body\":\"hi\"}"));
    assert!(n.user_is_target);
    assert_eq!(n.sender_display_name.as_deref(), Some("Alice"));
    assert_eq!(n.room_name.as_deref(), Some("Lobby"));
    assert_eq!(n.prio, NotificationPriority::Low);
}

#[test]
fn membership_of_another_user_is_not_target() {
    let mut ev = message_event(EventType::RoomMember);
    ev.state_key = Some("@bob:example.org".to_string());
    let r = build_notice(0, &http_pusher(None), vec![], &ev, None, None);
    let n = r.unwrap().unwrap().notification;
    assert!(!n.user_is_target);
    assert!(n.room_name.is_none());
}

#[test]
fn content_that_is_not_json_is_left_out() {
    let mut ev = message_event(EventType::Other("m.room.message".to_string()));
    ev.content = "{not json".to_string();
    let r = build_notice(0, &http_pusher(None), vec![], &ev, None, None);
    let n = r.unwrap().unwrap().notification;
    assert!(n.content.is_none());
    assert_eq!(n.sender.as_deref(), Some("@alice:example.org"));
}

#[test]
fn invalid_room_name_is_data_integrity_error() {
    let r = build_notice(0, &http_pusher(None), vec![], &message_event(EventType::RoomMember), None, Some("{\"topic\":1}".to_string()));
    assert!(matches!(r, Err(Error::InvalidRoomName)));
}

#[test]
fn priority_high_for_encrypted() {
    assert_eq!(notification_priority(&EventType::RoomEncrypted, &vec![]), NotificationPriority::High);
    let svc = Service::new();
    let r = svc.send_push_notice(1, &http_pusher(None), &vec![Action::Notify], &message_event(EventType::RoomEncrypted), None, None);
    assert_eq!(r.unwrap().unwrap().notification.prio, NotificationPriority::High);
}

#[test]
fn priority_high_for_highlight_or_sound() {
    let other = EventType::Other("m.room.message".to_string());
    assert_eq!(notification_priority(&other, &vec![Tweak::Highlight(true)]), NotificationPriority::High);
    assert_eq!(notification_priority(&other, &vec![Tweak::Highlight(false), Tweak::Sound("x".to_string())]), NotificationPriority::High);
}

#[test]
fn priority_low_otherwise() {
    let other = EventType::Other("m.room.message".to_string());
    assert_eq!(notification_priority(&other, &vec![]), NotificationPriority::Low);
    assert_eq!(
        notification_priority(&other, &vec![Tweak::Highlight(false), Tweak::Custom("x".to_string(), "1".to_string())]),
        NotificationPriority::Low
    );
    assert_eq!(notification_priority(&EventType::RoomMember, &vec![]), NotificationPriority::Low);
}

#[test]
fn email_pusher_sends_nothing() {
    let svc = Service::new();
    let r = svc.send_push_notice(1, &pusher_of_kind(PusherKind::Email), &vec![Action::Notify], &message_event(EventType::RoomEncrypted), None, Some("bad".to_string()));
    assert!(matches!(r, Ok(None)));
}

#[test]
fn unknown_pusher_kind_sends_nothing() {
    let svc = Service::new();
    let r = svc.send_push_notice(1, &pusher_of_kind(PusherKind::Other("sms".to_string())), &vec![Action::Notify], &message_event(EventType::RoomEncrypted), None, None);
    assert!(matches!(r, Ok(None)));
}
