use barber2go::coordinator::Coordinator;
use barber2go::dispatch::{PushConfig, PushKeys, PushSubscriptionInput};
use barber2go::gateway::{ChangeEvent, EventKind, PublicStatusEvent};
use barber2go::model::{AuthUser, BookingDetails, GeoPoint, Status, UpdateError};
use barber2go::wire::{event_to_bytes, public_event_to_bytes};

fn push_enabled() -> PushConfig {
    PushConfig {
        public_key: "BPublicKeyMaterial".to_string(),
        private_key: "PrivateKeyMaterial".to_string(),
        subject: "mailto:admin@example.com".to_string(),
    }
}

fn push_disabled() -> PushConfig {
    PushConfig {
        public_key: String::new(),
        private_key: "   ".to_string(),
        subject: "mailto:admin@example.com".to_string(),
    }
}

fn details(name: &str) -> BookingDetails {
    BookingDetails {
        client_name: name.to_string(),
        client_phone: "555-0100".to_string(),
        client_email: None,
        address: "12 Elm St".to_string(),
        service: "Signature Cut".to_string(),
        notes: Some("ring twice".to_string()),
        scheduled_for: "2025-06-01T10:00:00Z".to_string(),
        location: None,
    }
}

fn input(endpoint: &str, p256dh: &str, auth: &str) -> PushSubscriptionInput {
    PushSubscriptionInput {
        endpoint: endpoint.to_string(),
        keys: PushKeys { p256dh: p256dh.to_string(), auth: auth.to_string() },
    }
}

#[test]
fn enabled_needs_both_keys() {
    assert!(push_enabled().enabled());
    assert!(!push_disabled().enabled());
    let half = PushConfig {
        public_key: "BPub".to_string(),
        private_key: String::new(),
        subject: String::new(),
    };
    assert!(!half.enabled());
}

#[test]
fn subscribe_unknown_appointment_not_found() {
    let mut core = Coordinator::new(push_enabled(), 16);
    let r = core.subscribe_to_push(3, input("https://push.example/e1", "k", "a"));
    assert!(matches!(r, Err(UpdateError::NotFound)));
}

#[test]
fn upsert_same_endpoint_twice_keeps_one_row_with_latest_keys() {
    let mut core = Coordinator::new(push_enabled(), 16);
    let out = core.book_appointment(details("Alex"), None).unwrap();
    core.subscribe_to_push(out.id, input("https://push.example/e1", "key-one", "auth-one"))
        .unwrap();
    let msgs = core
        .subscribe_to_push(out.id, input("https://push.example/e1", "key-two", "auth-two"))
        .unwrap();
    let rows = core.list_subscriptions(out.id);
    assert_eq!(rows.len(), 1);
    assert_eq!(rows[0].endpoint, "https://push.example/e1");
    assert_eq!(rows[0].p256dh, "key-two");
    assert_eq!(rows[0].auth, "auth-two");
    assert_eq!(msgs.len(), 1);
    assert_eq!(msgs[0].p256dh, "key-two");
}

#[test]
fn each_device_gets_its_own_delivery() {
    let mut core = Coordinator::new(push_enabled(), 16);
    let out = core.book_appointment(details("Alex"), None).unwrap();
    core.subscribe_to_push(out.id, input("https://push.example/e1", "k1", "a1"))
        .unwrap();
    core.subscribe_to_push(out.id, input("https://push.example/e2", "k2", "a2"))
        .unwrap();
    let b = AuthUser {
        id: "barber-1".to_string(),
        display_name: "One".to_string(),
        role: "barber".to_string(),
    };
    let r = core.barber_update(out.id, "accepted", &b).unwrap();
    assert_eq!(r.deliveries.len(), 2);
    let endpoints: Vec<&str> = r.deliveries.iter().map(|m| m.endpoint.as_str()).collect();
    assert_eq!(endpoints, vec!["https://push.example/e1", "https://push.example/e2"]);
}

#[test]
fn unconfigured_push_is_inert_but_booking_succeeds() {
    let mut core = Coordinator::new(push_disabled(), 16);
    let sub = core.open_privileged_stream();
    let out = core
        .book_appointment(details("Alex"), Some(input("https://push.example/e1", "k", "a")))
        .unwrap();
    assert!(out.deliveries.is_empty());
    assert_eq!(core.list_subscriptions(out.id).len(), 1);
    assert!(core.poll_privileged(sub).is_some());
    let msgs = core
        .subscribe_to_push(out.id, input("https://push.example/e2", "k", "a"))
        .unwrap();
    assert!(msgs.is_empty());
}

#[test]
fn booking_with_subscription_plans_confirmation() {
    let mut core = Coordinator::new(push_enabled(), 16);
    let out = core
        .book_appointment(details("Alex"), Some(input("https://push.example/e1", "k", "a")))
        .unwrap();
    assert_eq!(out.deliveries.len(), 1);
    let payload: serde_json::Value = serde_json::from_slice(&out.deliveries[0].payload).unwrap();
    assert_eq!(payload["title"], "Appointment request received");
    assert_eq!(
        payload["body"],
        "We received your booking request. We'll confirm shortly."
    );
    assert_eq!(payload["url"], "/status/0");
}

#[test]
fn update_notification_names_the_status() {
    let mut core = Coordinator::new(push_enabled(), 16);
    let out = core
        .book_appointment(details("Alex"), Some(input("https://push.example/e1", "k", "a")))
        .unwrap();
    let b = AuthUser {
        id: "barber-1".to_string(),
        display_name: "One".to_string(),
        role: "barber".to_string(),
    };
    let r = core.barber_update(out.id, "declined", &b).unwrap();
    let payload: serde_json::Value = serde_json::from_slice(&r.deliveries[0].payload).unwrap();
    assert_eq!(payload["title"], "Appointment updated");
    assert_eq!(payload["body"], "Status changed to declined.");
    assert_eq!(payload["url"], "/status/0");
}

#[test]
fn privileged_frame_is_event_stream_json() {
    let ev = ChangeEvent {
        kind: EventKind::Updated,
        appointment_id: 42,
        status: Status::Accepted,
        client_name: "Alex \"AJ\" O'Neil".to_string(),
        client_phone: "555-0100".to_string(),
        client_email: None,
        address: "12 Elm St\nRear door".to_string(),
        service: "Signature Cut".to_string(),
        notes: Some("back\\slash".to_string()),
        scheduled_for: "2025-06-01T10:00:00Z".to_string(),
        barber_id: Some("barber-1".to_string()),
        barber_name: Some("Avery Cuts".to_string()),
        location: Some(GeoPoint { lat_microdeg: -1_000_001, lon_microdeg: 2_000_002 }),
    };
    let bytes = event_to_bytes(&ev);
    let text = String::from_utf8(bytes).unwrap();
    assert!(text.starts_with("event: update\ndata: "));
    assert!(text.ends_with("\n\n"));
    let body = &text["event: update\ndata: ".len()..text.len() - 2];
    let v: serde_json::Value = serde_json::from_str(body).unwrap();
    assert_eq!(v["kind"], "appointment_updated");
    assert_eq!(v["appointment_id"], 42);
    assert_eq!(v["status"], "accepted");
    assert_eq!(v["client_name"], "Alex \"AJ\" O'Neil");
    assert_eq!(v["client_phone"], "555-0100");
    assert!(v["client_email"].is_null());
    assert_eq!(v["address"], "12 Elm St\nRear door");
    assert_eq!(v["notes"], "back\\slash");
    assert_eq!(v["barber_id"], "barber-1");
    assert_eq!(v["barber_name"], "Avery Cuts");
    assert_eq!(v["latitude_microdeg"], -1_000_001);
    assert_eq!(v["longitude_microdeg"], 2_000_002);
}

#[test]
fn public_frame_carries_no_contact_fields() {
    let ev = PublicStatusEvent {
        appointment_id: 7,
        status: Status::Pending,
        service: "Signature Cut".to_string(),
        scheduled_for: "2025-06-01T10:00:00Z".to_string(),
        barber_name: None,
    };
    let bytes = public_event_to_bytes(&ev);
    let text = String::from_utf8(bytes).unwrap();
    assert!(text.starts_with("event: update\ndata: "));
    let body = &text["event: update\ndata: ".len()..text.len() - 2];
    let v: serde_json::Value = serde_json::from_str(body).unwrap();
    let obj = v.as_object().unwrap();
    let mut keys: Vec<&str> = obj.keys().map(|k| k.as_str()).collect();
    keys.sort();
    assert_eq!(
        keys,
        vec!["appointment_id", "barber_name", "scheduled_for", "service", "status"]
    );
    assert_eq!(v["appointment_id"], 7);
    assert_eq!(v["status"], "pending");
    assert!(v["barber_name"].is_null());
}

#[test]
fn escaping_survives_control_bytes() {
    let ev = PublicStatusEvent {
        appointment_id: 0,
        status: Status::Pending,
        service: "tab\tbell\u{7}quote\"end".to_string(),
        scheduled_for: "now".to_string(),
        barber_name: Some("nul\u{0}done".to_string()),
    };
    let bytes = public_event_to_bytes(&ev);
    let text = String::from_utf8(bytes).unwrap();
    let body = &text["event: update\ndata: ".len()..text.len() - 2];
    let v: serde_json::Value = serde_json::from_str(body).unwrap();
    assert_eq!(v["service"], "tab\tbell\u{7}quote\"end");
    assert_eq!(v["barber_name"], "nul\u{0}done");
}

#[test]
fn decimal_rendering_handles_extremes() {
    let ev = ChangeEvent {
        kind: EventKind::Created,
        appointment_id: u64::MAX,
        status: Status::Pending,
        client_name: "A".to_string(),
        client_phone: "1".to_string(),
        client_email: None,
        address: "x".to_string(),
        service: "y".to_string(),
        notes: None,
        scheduled_for: "t".to_string(),
        barber_id: None,
        barber_name: None,
        location: Some(GeoPoint { lat_microdeg: i64::MIN, lon_microdeg: 0 }),
    };
    let text = String::from_utf8(event_to_bytes(&ev)).unwrap();
    let body = &text["event: update\ndata: ".len()..text.len() - 2];
    let v: serde_json::Value = serde_json::from_str(body).unwrap();
    assert_eq!(v["appointment_id"], u64::MAX);
    assert_eq!(v["latitude_microdeg"], i64::MIN);
    assert_eq!(v["longitude_microdeg"], 0);
}

#[test]
fn activity_timestamps_are_rfc3339() {
    let mut core = Coordinator::new(push_disabled(), 16);
    core.book_appointment(details("Alex"), None).unwrap();
    let log = core.activity_log();
    assert_eq!(log.len(), 1);
    assert!(chrono::DateTime::parse_from_rfc3339(&log[0].created_at).is_ok());
}

#[test]
fn frame_survives_multibyte_characters() {
    let ev = PublicStatusEvent {
        appointment_id: 1,
        status: Status::Accepted,
        service: "Erlebnis für Bärte — 刈り上げ".to_string(),
        scheduled_for: "2025-06-01T10:00:00Z".to_string(),
        barber_name: Some("Jürgen".to_string()),
    };
    let bytes = public_event_to_bytes(&ev);
    let text = String::from_utf8(bytes).unwrap();
    let body = &text["event: update\ndata: ".len()..text.len() - 2];
    let v: serde_json::Value = serde_json::from_str(body).unwrap();
    assert_eq!(v["service"], "Erlebnis für Bärte — 刈り上げ");
    assert_eq!(v["barber_name"], "Jürgen");
}
