use conduit_core::context::{localpart, push_condition_context, RoomPowerLevels, ESTIMATED_MEMBER_COUNT};
use conduit_core::error::Error;
use conduit_core::gateway::{gateway_destination, interpret_gateway_body, read_gateway_response};
use conduit_core::pdu_metadata::Service as RelationService;
use conduit_core::push::{PushFormat, Pusher, PusherIds, PusherKind, HttpPusherData};
use conduit_core::pusher::{PusherAction, Service as PusherService};
use conduit_core::Services;

fn s(x: &str) -> String {
    x.to_string()
}

#[test]
fn destination_drops_legacy_path() {
    assert_eq!(gateway_destination(&s("https://push.example.org/_matrix/push/v1/notify")), "https://push.example.org");
    assert_eq!(gateway_destination(&s("https://push.example.org/base")), "https://push.example.org/base");
    assert_eq!(gateway_destination(&s("")), "");
}

#[test]
fn gateway_reply_with_success_status_decodes() {
    let body = b"{\"rejected\":[\"key1\"]}".to_vec();
    let r = read_gateway_response(200, &body).unwrap();
    assert_eq!(r.rejected, vec![s("key1")]);
}

#[test]
fn gateway_reply_with_error_status_still_decodes() {
    let body = b"{\"rejected\":[\"key1\"]}".to_vec();
    let r = read_gateway_response(500, &body).unwrap();
    assert_eq!(r.rejected, vec![s("key1")]);
}

#[test]
fn gateway_reply_that_does_not_decode_is_delivery_error() {
    let body = b"<html>oops</html>".to_vec();
    assert!(matches!(read_gateway_response(200, &body), Err(Error::BadGatewayResponse)));
    assert!(matches!(read_gateway_response(502, &body), Err(Error::BadGatewayResponse)));
}

#[test]
fn interpret_gateway_body_by_value() {
    assert_eq!(interpret_gateway_body(Some(vec![s("a"), s("b")])).unwrap().rejected, vec![s("a"), s("b")]);
    assert!(matches!(interpret_gateway_body(None), Err(Error::BadGatewayResponse)));
}

#[test]
fn marked_events_are_referenced() {
    let mut svc = RelationService::new();
    let room = s("!room:example.org");
    let (e1, e2) = (s("$e1"), s("$e2"));
    assert!(!svc.is_event_referenced(&room, &e1));
    assert!(!svc.is_event_referenced(&room, &e2));
    svc.mark_as_referenced(&room, &vec![e1.clone(), e2.clone()]).unwrap();
    assert!(svc.is_event_referenced(&room, &e1));
    assert!(svc.is_event_referenced(&room, &e2));
    assert!(!svc.is_event_referenced(&s("!other:example.org"), &e1));
    svc.mark_as_referenced(&room, &vec![e1.clone()]).unwrap();
    assert!(svc.is_event_referenced(&room, &e1));
}

#[test]
fn soft_fail_is_independent_of_reference() {
    let mut svc = RelationService::new();
    let room = s("!room:example.org");
    let e = s("$e");
    assert!(!svc.is_event_soft_failed(&e));
    svc.mark_event_soft_failed(&e).unwrap();
    assert!(svc.is_event_soft_failed(&e));
    assert!(!svc.is_event_referenced(&room, &e));
    svc.mark_as_referenced(&room, &vec![e.clone()]).unwrap();
    svc.mark_event_soft_failed(&e).unwrap();
    assert!(svc.is_event_referenced(&room, &e));
    assert!(svc.is_event_soft_failed(&e));
    assert!(!svc.is_event_soft_failed(&s("$other")));
}

#[test]
fn add_relation_twice_is_idempotent() {
    let mut svc = RelationService::new();
    svc.add_relation(&s("$a"), &s("$b")).unwrap();
    svc.add_relation(&s("$a"), &s("$b")).unwrap();
    assert_eq!(svc.get_or_create_shorteventid(&s("$a")).unwrap(), 0);
    assert_eq!(svc.get_or_create_shorteventid(&s("$b")).unwrap(), 1);
    assert_eq!(svc.get_or_create_shorteventid(&s("$c")).unwrap(), 2);
}

fn pusher(key: &str, url: &str) -> Pusher {
    Pusher {
        ids: PusherIds { pushkey: s(key), app_id: s("app") },
        kind: PusherKind::Http(HttpPusherData { url: s(url), format: Some(PushFormat::EventIdOnly), default_payload: None }),
        app_display_name: s("App"),
        device_display_name: s("Phone"),
        profile_tag: None,
        lang: s("en"),
    }
}

#[test]
fn pusher_store_set_get_delete() {
    let mut svc = PusherService::new();
    let alice = s("@alice:example.org");
    svc.set_pusher(&alice, PusherAction::Post(pusher("k1", "https://a"))).unwrap();
    svc.set_pusher(&alice, PusherAction::Post(pusher("k2", "https://b"))).unwrap();
    svc.set_pusher(&alice, PusherAction::Post(pusher("k1", "https://c"))).unwrap();
    svc.set_pusher(&s("@bob:example.org"), PusherAction::Post(pusher("k1", "https://d"))).unwrap();
    let p = svc.get_pusher(&alice, &s("k1")).unwrap().unwrap();
    assert!(matches!(p.kind, PusherKind::Http(ref h) if h.url == "https://c"));
    assert_eq!(svc.get_pushers(&alice).unwrap().len(), 2);
    assert_eq!(svc.get_pushkeys(&alice), vec![s("k2"), s("k1")]);
    svc.set_pusher(&alice, PusherAction::Delete(PusherIds { pushkey: s("k1"), app_id: s("app") })).unwrap();
    assert!(svc.get_pusher(&alice, &s("k1")).unwrap().is_none());
    assert_eq!(svc.get_pushkeys(&alice), vec![s("k2")]);
    assert_eq!(svc.get_pushkeys(&s("@bob:example.org")), vec![s("k1")]);
}

#[test]
fn localpart_of_user_id() {
    assert_eq!(localpart(&s("@alice:example.org")), "alice");
    assert_eq!(localpart(&s("@bob")), "bob");
    assert_eq!(localpart(&s("")), "");
}

#[test]
fn context_falls_back_to_localpart() {
    let pl = RoomPowerLevels { users: vec![(s("@alice:example.org"), 100)], users_default: 0, notifications_room: 50 };
    let ctx = push_condition_context(&s("@alice:example.org"), None, pl, &s("!r:example.org"));
    assert_eq!(ctx.user_display_name, "alice");
    assert_eq!(ctx.member_count.estimate, ESTIMATED_MEMBER_COUNT);
    assert_eq!(ctx.users_power_levels, vec![(s("@alice:example.org"), 100)]);
    assert_eq!(ctx.notifications_room, 50);
    let pl2 = RoomPowerLevels { users: vec![], users_default: 5, notifications_room: 50 };
    let ctx2 = push_condition_context(&s("@alice:example.org"), Some(s("Alice")), pl2, &s("!r:example.org"));
    assert_eq!(ctx2.user_display_name, "Alice");
    assert_eq!(ctx2.default_power_level, 5);
}

#[test]
fn services_build_starts_empty() {
    let svcs = Services::build();
    assert!(svcs.pusher.get_pushkeys(&s("@alice:example.org")).is_empty());
    assert!(!svcs.pdu_metadata.is_event_soft_failed(&s("$e")));
}
