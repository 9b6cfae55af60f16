use barber2go::coordinator::Coordinator;
use barber2go::dispatch::PushConfig;
use barber2go::gateway::{filter_public, EventKind};
use barber2go::model::{AuthUser, BookingDetails, GeoPoint, Status};

fn push_disabled() -> PushConfig {
    PushConfig {
        public_key: String::new(),
        private_key: String::new(),
        subject: "mailto:admin@example.com".to_string(),
    }
}

fn details(name: &str) -> BookingDetails {
    BookingDetails {
        client_name: name.to_string(),
        client_phone: "555-0100".to_string(),
        client_email: Some("c@example.com".to_string()),
        address: "12 Elm St".to_string(),
        service: "Fade & Line-Up".to_string(),
        notes: None,
        scheduled_for: "2025-06-01T10:00:00Z".to_string(),
        location: Some(GeoPoint { lat_microdeg: 52_520_000, lon_microdeg: -13_405_000 }),
    }
}

fn barber(id: &str, name: &str) -> AuthUser {
    AuthUser {
        id: id.to_string(),
        display_name: name.to_string(),
        role: "barber".to_string(),
    }
}

#[test]
fn late_subscriber_never_sees_earlier_events() {
    let mut core = Coordinator::new(push_disabled(), 16);
    core.book_appointment(details("Alex"), None).unwrap();
    let sub = core.open_privileged_stream();
    assert!(core.poll_privileged(sub).is_none());
}

#[test]
fn live_subscriber_sees_events_in_publish_order() {
    let mut core = Coordinator::new(push_disabled(), 16);
    let sub = core.open_privileged_stream();
    let out = core.book_appointment(details("Alex"), None).unwrap();
    let b = barber("barber-1", "One");
    core.barber_update(out.id, "accepted", &b).unwrap();

    let first = core.poll_privileged(sub).expect("creation event");
    assert_eq!(first.kind, EventKind::Created);
    assert_eq!(first.appointment_id, out.id);
    assert_eq!(first.status, Status::Pending);
    assert_eq!(first.client_name, "Alex");

    let second = core.poll_privileged(sub).expect("update event");
    assert_eq!(second.kind, EventKind::Updated);
    assert_eq!(second.status, Status::Accepted);
    assert_eq!(second.barber_id.as_deref(), Some("barber-1"));
    assert!(core.poll_privileged(sub).is_none());
}

#[test]
fn independent_subscribers_each_get_a_copy() {
    let mut core = Coordinator::new(push_disabled(), 16);
    let s1 = core.open_privileged_stream();
    let s2 = core.open_privileged_stream();
    core.book_appointment(details("Alex"), None).unwrap();
    assert!(core.poll_privileged(s1).is_some());
    assert!(core.poll_privileged(s2).is_some());
    assert!(core.poll_privileged(s1).is_none());
}

#[test]
fn full_subscriber_drops_oldest_without_blocking() {
    let mut core = Coordinator::new(push_disabled(), 1);
    let sub = core.open_privileged_stream();
    core.book_appointment(details("Alex"), None).unwrap();
    let out = core.book_appointment(details("Blake"), None).unwrap();
    assert_eq!(out.id, 1);
    let only = core.poll_privileged(sub).expect("one kept event");
    assert_eq!(only.client_name, "Blake");
    assert!(core.poll_privileged(sub).is_none());
}

#[test]
fn closed_subscriber_gets_nothing_more() {
    let mut core = Coordinator::new(push_disabled(), 16);
    let sub = core.open_privileged_stream();
    core.close_stream(sub);
    core.book_appointment(details("Alex"), None).unwrap();
    assert!(core.poll_privileged(sub).is_none());
}

#[test]
fn public_stream_filters_other_appointments() {
    let mut core = Coordinator::new(push_disabled(), 16);
    let sub = core.open_public_stream(0);
    let a = core.book_appointment(details("Alex"), None).unwrap();
    let b = core.book_appointment(details("Blake"), None).unwrap();
    assert_eq!((a.id, b.id), (0, 1));
    let ev = core.poll_public(sub, 0).expect("own event");
    assert_eq!(ev.appointment_id, 0);
    assert!(core.poll_public(sub, 0).is_none());
}

#[test]
fn public_stream_sees_own_updates() {
    let mut core = Coordinator::new(push_disabled(), 16);
    core.add_barber("barber-1".to_string(), "Avery Cuts".to_string());
    let out = core.book_appointment(details("Alex"), None).unwrap();
    let sub = core.open_public_stream(out.id);
    let b = barber("barber-1", "Avery Cuts");
    core.barber_update(out.id, "accepted", &b).unwrap();
    let ev = core.poll_public(sub, out.id).expect("update visible");
    assert_eq!(ev.appointment_id, out.id);
    assert_eq!(ev.status, Status::Accepted);
    assert_eq!(ev.service, "Fade & Line-Up");
    assert_eq!(ev.scheduled_for, "2025-06-01T10:00:00Z");
    assert_eq!(ev.barber_name.as_deref(), Some("Avery Cuts"));
}

#[test]
fn filter_keeps_only_matching_events() {
    let mut core = Coordinator::new(push_disabled(), 16);
    let out = core.book_appointment(details("Alex"), None).unwrap();
    let ev = out.event;
    assert!(filter_public(&ev, ev.appointment_id).is_some());
    assert!(filter_public(&ev, ev.appointment_id + 1).is_none());
}

#[test]
fn unknown_barber_name_degrades_to_absent() {
    let mut core = Coordinator::new(push_disabled(), 16);
    let out = core.book_appointment(details("Alex"), None).unwrap();
    let b = barber("barber-unlisted", "Ghost");
    let r = core.barber_update(out.id, "accepted", &b).unwrap();
    assert_eq!(r.event.barber_id.as_deref(), Some("barber-unlisted"));
    assert!(r.event.barber_name.is_none());
}

#[test]
fn public_poll_drains_foreign_events() {
    let mut core = Coordinator::new(push_disabled(), 16);
    let sub = core.open_public_stream(1);
    core.book_appointment(details("Alex"), None).unwrap();
    let second = core.book_appointment(details("Blake"), None).unwrap();
    assert_eq!(second.id, 1);
    let ev = core.poll_public(sub, 1).expect("second booking visible");
    assert_eq!(ev.appointment_id, 1);
    assert!(core.poll_public(sub, 1).is_none());
    assert!(core.poll_privileged(sub).is_none());
}

#[test]
fn booking_event_carries_snapshot() {
    let mut core = Coordinator::new(push_disabled(), 16);
    let out = core.book_appointment(details("Alex"), None).unwrap();
    let ev = out.event;
    assert_eq!(ev.kind, EventKind::Created);
    assert_eq!(ev.client_phone, "555-0100");
    assert_eq!(ev.client_email.as_deref(), Some("c@example.com"));
    assert_eq!(ev.address, "12 Elm St");
    assert_eq!(
        ev.location,
        Some(GeoPoint { lat_microdeg: 52_520_000, lon_microdeg: -13_405_000 })
    );
    assert!(ev.barber_id.is_none());
}
