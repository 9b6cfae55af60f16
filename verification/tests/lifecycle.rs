use barber2go::coordinator::Coordinator;
use barber2go::dispatch::PushConfig;
use barber2go::model::{
    normalize_assignment, parse_status, trimmed, AuthUser, BookingDetails, Status, UpdateError,
    ValidationIssue,
};

fn details(name: &str, phone: &str, address: &str, service: &str, scheduled: &str) -> BookingDetails {
    BookingDetails {
        client_name: name.to_string(),
        client_phone: phone.to_string(),
        client_email: None,
        address: address.to_string(),
        service: service.to_string(),
        notes: None,
        scheduled_for: scheduled.to_string(),
        location: None,
    }
}

fn push_disabled() -> PushConfig {
    PushConfig {
        public_key: String::new(),
        private_key: String::new(),
        subject: "mailto:admin@example.com".to_string(),
    }
}

fn barber(id: &str, name: &str) -> AuthUser {
    AuthUser {
        id: id.to_string(),
        display_name: name.to_string(),
        role: "barber".to_string(),
    }
}

fn admin(name: &str) -> AuthUser {
    AuthUser {
        id: "admin-1".to_string(),
        display_name: name.to_string(),
        role: "admin".to_string(),
    }
}

#[test]
fn end_to_end_scenario() {
    let mut core = Coordinator::new(push_disabled(), 16);
    let d = details(
        "Alex",
        "555-0100",
        "12 Elm St",
        "Fade & Line-Up",
        "2025-06-01T10:00:00Z",
    );
    let out = core.book_appointment(d, None).expect("booking must succeed");
    let id = out.id;
    let row = core.get_appointment(id).expect("stored");
    assert_eq!(row.status, Status::Pending);
    assert!(row.barber_id.is_none());
    assert_eq!(row.client_name, "Alex");

    let b1 = barber("barber-1", "Barber One");
    let r1 = core.barber_update(id, "accepted", &b1).expect("claim succeeds");
    assert_eq!(r1.appointment.status, Status::Accepted);
    assert_eq!(r1.appointment.barber_id.as_deref(), Some("barber-1"));

    let b2 = barber("barber-2", "Barber Two");
    let r2 = core.barber_update(id, "accepted", &b2);
    assert!(matches!(r2, Err(UpdateError::Forbidden)));
    let stored = core.get_appointment(id).expect("stored");
    assert_eq!(stored.barber_id.as_deref(), Some("barber-1"));
    assert_eq!(stored.status, Status::Accepted);
}

#[test]
fn claim_race_exactly_one_winner() {
    let mut core = Coordinator::new(push_disabled(), 16);
    let out = core
        .book_appointment(details("A", "1", "addr", "Beard Sculpt", "t"), None)
        .unwrap();
    let a = barber("barber-a", "A");
    let b = barber("barber-b", "B");
    let first = core.barber_update(out.id, "accepted", &a);
    let second = core.barber_update(out.id, "accepted", &b);
    assert!(first.is_ok());
    assert!(matches!(second, Err(UpdateError::Forbidden)));
    let row = core.get_appointment(out.id).unwrap();
    assert_eq!(row.barber_id.as_deref(), Some("barber-a"));
}

#[test]
fn own_barber_may_keep_working() {
    let mut core = Coordinator::new(push_disabled(), 16);
    let out = core
        .book_appointment(details("A", "1", "addr", "Beard Sculpt", "t"), None)
        .unwrap();
    let b = barber("barber-a", "A");
    core.barber_update(out.id, "accepted", &b).unwrap();
    let done = core.barber_update(out.id, "completed", &b).unwrap();
    assert_eq!(done.appointment.status, Status::Completed);
    assert_eq!(done.appointment.barber_id.as_deref(), Some("barber-a"));
}

#[test]
fn completed_appointment_locked_for_barbers() {
    let mut core = Coordinator::new(push_disabled(), 16);
    let out = core
        .book_appointment(details("A", "1", "addr", "Beard Sculpt", "t"), None)
        .unwrap();
    let b = barber("barber-a", "A");
    core.barber_update(out.id, "accepted", &b).unwrap();
    core.barber_update(out.id, "completed", &b).unwrap();
    // not even the assigned barber may move a completed appointment
    let reopened = core.barber_update(out.id, "pending", &b);
    assert!(matches!(reopened, Err(UpdateError::Forbidden)));
    let again = core.barber_update(out.id, "accepted", &b);
    assert!(matches!(again, Err(UpdateError::Forbidden)));
    let row = core.get_appointment(out.id).unwrap();
    assert_eq!(row.status, Status::Completed);
    assert_eq!(row.barber_id.as_deref(), Some("barber-a"));
    // the administrator override still works
    let back = core
        .admin_update(out.id, Status::Pending, None, None, &admin("Root"))
        .unwrap();
    assert_eq!(back.appointment.status, Status::Pending);
}

#[test]
fn unassigned_completed_locked_for_barbers() {
    let mut core = Coordinator::new(push_disabled(), 16);
    let out = core
        .book_appointment(details("A", "1", "addr", "Beard Sculpt", "t"), None)
        .unwrap();
    core.admin_update(out.id, Status::Completed, None, None, &admin("Root"))
        .unwrap();
    let b = barber("barber-a", "A");
    let claim = core.barber_update(out.id, "accepted", &b);
    assert!(matches!(claim, Err(UpdateError::Forbidden)));
    assert!(core.get_appointment(out.id).unwrap().barber_id.is_none());
}

#[test]
fn barber_invalid_status_is_rejected() {
    let mut core = Coordinator::new(push_disabled(), 16);
    let out = core
        .book_appointment(details("A", "1", "addr", "Beard Sculpt", "t"), None)
        .unwrap();
    let b = barber("barber-a", "A");
    let r = core.barber_update(out.id, "archived", &b);
    assert!(matches!(r, Err(UpdateError::InvalidStatus)));
    assert_eq!(core.get_appointment(out.id).unwrap().status, Status::Pending);
}

#[test]
fn barber_unknown_appointment_is_not_found() {
    let mut core = Coordinator::new(push_disabled(), 16);
    let b = barber("barber-a", "A");
    let r = core.barber_update(7, "accepted", &b);
    assert!(matches!(r, Err(UpdateError::NotFound)));
}

#[test]
fn admin_unknown_appointment_is_not_found() {
    let mut core = Coordinator::new(push_disabled(), 16);
    let r = core.admin_update(0, Status::Accepted, None, None, &admin("Root"));
    assert!(matches!(r, Err(UpdateError::NotFound)));
}

#[test]
fn admin_may_move_any_status_anywhere() {
    let mut core = Coordinator::new(push_disabled(), 16);
    let out = core
        .book_appointment(details("A", "1", "addr", "Beard Sculpt", "t"), None)
        .unwrap();
    let root = admin("Root");
    let b = barber("barber-a", "A");
    core.barber_update(out.id, "completed", &b).unwrap();
    let back = core
        .admin_update(out.id, Status::Pending, None, None, &root)
        .unwrap();
    assert_eq!(back.appointment.status, Status::Pending);
    assert!(back.appointment.barber_id.is_none());
}

#[test]
fn admin_assignment_and_reschedule() {
    let mut core = Coordinator::new(push_disabled(), 16);
    let out = core
        .book_appointment(details("A", "1", "addr", "Beard Sculpt", "2025-01-01T09:00:00Z"), None)
        .unwrap();
    let root = admin("Root");
    let r = core
        .admin_update(
            out.id,
            Status::Accepted,
            Some("barber-9".to_string()),
            Some("2025-02-02T10:00:00Z".to_string()),
            &root,
        )
        .unwrap();
    assert_eq!(r.appointment.barber_id.as_deref(), Some("barber-9"));
    assert_eq!(r.appointment.scheduled_for, "2025-02-02T10:00:00Z");
    assert!(r.appointment.admin_assigned);

    let r2 = core
        .admin_update(out.id, Status::Accepted, Some("barber-9".to_string()), Some("   ".to_string()), &root)
        .unwrap();
    assert_eq!(r2.appointment.scheduled_for, "2025-02-02T10:00:00Z");

    // a replacement schedule is stored trimmed
    let r3 = core
        .admin_update(
            out.id,
            Status::Accepted,
            Some("barber-9".to_string()),
            Some("  2030-03-03T08:00:00Z \t".to_string()),
            &root,
        )
        .unwrap();
    assert_eq!(r3.appointment.scheduled_for, "2030-03-03T08:00:00Z");
}

#[test]
fn validation_collects_every_problem() {
    let mut core = Coordinator::new(push_disabled(), 16);
    let d = details("", "  ", "\t", "Beard Sculpt", "2025-01-01T09:00:00Z");
    let err = core.book_appointment(d, None).expect_err("must be rejected");
    assert_eq!(
        err,
        vec![
            ValidationIssue::NameRequired,
            ValidationIssue::PhoneRequired,
            ValidationIssue::AddressRequired,
        ]
    );
    assert_eq!(core.appointment_count(), 0);
}

#[test]
fn validation_all_five_fields() {
    let mut core = Coordinator::new(push_disabled(), 16);
    let d = details("", "", "", "", "");
    let err = core.book_appointment(d, None).expect_err("must be rejected");
    assert_eq!(err.len(), 5);
    assert_eq!(err[3], ValidationIssue::ServiceRequired);
    assert_eq!(err[4], ValidationIssue::ScheduleRequired);
}

#[test]
fn validation_messages() {
    assert_eq!(ValidationIssue::NameRequired.message(), "Full name is required.");
    assert_eq!(ValidationIssue::PhoneRequired.message(), "Phone number is required.");
    assert_eq!(ValidationIssue::AddressRequired.message(), "Service address is required.");
    assert_eq!(ValidationIssue::ServiceRequired.message(), "Please select a service.");
    assert_eq!(ValidationIssue::ScheduleRequired.message(), "Please pick a date and time.");
}

#[test]
fn identifiers_are_sequential() {
    let mut core = Coordinator::new(push_disabled(), 16);
    let a = core
        .book_appointment(details("A", "1", "x", "Beard Sculpt", "t"), None)
        .unwrap();
    let b = core
        .book_appointment(details("B", "2", "y", "Beard Sculpt", "t"), None)
        .unwrap();
    assert_eq!(a.id, 0);
    assert_eq!(b.id, 1);
    assert_eq!(core.appointment_count(), 2);
}

#[test]
fn activity_log_records_transitions() {
    let mut core = Coordinator::new(push_disabled(), 16);
    let out = core
        .book_appointment(details("Alex", "1", "x", "Beard Sculpt", "t"), None)
        .unwrap();
    let b = barber("barber-a", "Avery");
    core.barber_update(out.id, "accepted", &b).unwrap();
    core.admin_update(out.id, Status::Declined, None, None, &admin("Root"))
        .unwrap();
    let log = core.activity_log();
    assert_eq!(log.len(), 3);
    assert_eq!(log[0].message, "New appointment requested for Alex.");
    assert_eq!(log[1].message, "Avery updated appointment 0 to accepted.");
    assert_eq!(log[2].message, "Root updated appointment 0.");
}

#[test]
fn claimed_appointment_keeps_assignment_when_reopened() {
    let mut core = Coordinator::new(push_disabled(), 16);
    let out = core
        .book_appointment(details("A", "1", "x", "Beard Sculpt", "t"), None)
        .unwrap();
    let b = barber("barber-a", "A");
    core.barber_update(out.id, "accepted", &b).unwrap();
    let reopened = core.barber_update(out.id, "pending", &b).unwrap();
    assert_eq!(reopened.appointment.status, Status::Pending);
    assert_eq!(reopened.appointment.barber_id.as_deref(), Some("barber-a"));
}

#[test]
fn parse_and_label_round_trip() {
    for (s, v) in [
        ("pending", Status::Pending),
        ("accepted", Status::Accepted),
        ("declined", Status::Declined),
        ("completed", Status::Completed),
    ] {
        assert_eq!(parse_status(s), Some(v));
        assert_eq!(v.label(), s);
    }
    assert_eq!(parse_status("Accepted"), None);
    assert_eq!(parse_status(""), None);
}

#[test]
fn assignment_normalizer_trims_and_drops_blanks() {
    assert_eq!(normalize_assignment(None), None);
    assert_eq!(normalize_assignment(Some("   ".to_string())), None);
    assert_eq!(normalize_assignment(Some("\t \n".to_string())), None);
    assert_eq!(
        normalize_assignment(Some("  barber-1\t".to_string())),
        Some("barber-1".to_string())
    );
    assert_eq!(
        normalize_assignment(Some("barber-2".to_string())),
        Some("barber-2".to_string())
    );
}

#[test]
fn trimming_strips_both_ends_only() {
    assert_eq!(trimmed(""), "");
    assert_eq!(trimmed("   "), "");
    assert_eq!(trimmed("  a b  "), "a b");
    assert_eq!(trimmed("\tnão aparado\n"), "não aparado");
    assert_eq!(trimmed("plain"), "plain");
    // the full Unicode whitespace set is removed, as str::trim does
    assert_eq!(trimmed("\u{00A0}\u{2003}x\u{3000}"), "x");
    assert_eq!(trimmed("\u{00A0}"), "");
}

#[test]
fn unicode_whitespace_counts_as_blank() {
    let mut core = Coordinator::new(push_disabled(), 16);
    // a name of only no-break spaces is as empty as one of plain spaces
    let d = details("\u{00A0}\u{00A0}", "1", "x", "Beard Sculpt", "t");
    let err = core.book_appointment(d, None).expect_err("must be rejected");
    assert_eq!(err, vec![ValidationIssue::NameRequired]);
}

#[test]
fn service_catalog_contents() {
    let services = barber2go::records::service_catalog();
    assert_eq!(services.len(), 4);
    assert_eq!(services[0].name, "Signature Cut");
    assert_eq!(services[0].description, "Precision cut, styling, and lineup.");
    assert_eq!(services[1].name, "Fade & Line-Up");
    assert_eq!(services[1].duration, "35 min");
    assert_eq!(services[1].description, "Skin fade with sharp finishing touches.");
    assert_eq!(services[2].name, "Beard Sculpt");
    assert_eq!(services[2].description, "Shape, trim, and conditioning for the beard.");
    assert_eq!(services[3].description, "Cut, beard, and grooming refresh.");
    assert_eq!(services[3].name, "Full Grooming");
    assert!(services.iter().all(|s| !s.selected));
}
