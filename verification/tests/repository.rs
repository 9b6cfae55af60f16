use barber2go::engine::{ConditionalOutcome, LifecycleEngine};
use barber2go::model::{BookingDetails, Status};

fn details(name: &str) -> BookingDetails {
    BookingDetails {
        client_name: name.to_string(),
        client_phone: "555-0100".to_string(),
        client_email: None,
        address: "12 Elm St".to_string(),
        service: "Signature Cut".to_string(),
        notes: None,
        scheduled_for: "2025-06-01T10:00:00Z".to_string(),
        location: None,
    }
}

fn now() -> String {
    "2025-05-01T00:00:00Z".to_string()
}

#[test]
fn conditional_update_wins_on_expected_assignment() {
    let mut engine = LifecycleEngine::new();
    let id = engine.create(details("A"), now());
    let r = engine.conditional_update_status(
        id,
        &None,
        Status::Accepted,
        Some("barber-1".to_string()),
        None,
        false,
    );
    match r {
        ConditionalOutcome::Success(row) => {
            assert_eq!(row.status, Status::Accepted);
            assert_eq!(row.barber_id.as_deref(), Some("barber-1"));
            // a claim written through the conditional path is not admin-set
            assert!(!row.admin_assigned);
        }
        _ => panic!("expected a committed row"),
    }
}

#[test]
fn conditional_update_loses_race_with_conflict() {
    let mut engine = LifecycleEngine::new();
    let id = engine.create(details("A"), now());
    let first = engine.conditional_update_status(
        id,
        &None,
        Status::Accepted,
        Some("barber-1".to_string()),
        None,
        false,
    );
    assert!(matches!(first, ConditionalOutcome::Success(_)));
    let second = engine.conditional_update_status(
        id,
        &None,
        Status::Accepted,
        Some("barber-2".to_string()),
        None,
        false,
    );
    assert!(matches!(second, ConditionalOutcome::Conflict));
    let row = engine.get(id).unwrap();
    assert_eq!(row.barber_id.as_deref(), Some("barber-1"));
}

#[test]
fn conditional_update_matches_current_holder() {
    let mut engine = LifecycleEngine::new();
    let id = engine.create(details("A"), now());
    engine.conditional_update_status(
        id,
        &None,
        Status::Accepted,
        Some("barber-1".to_string()),
        None,
        false,
    );
    let r = engine.conditional_update_status(
        id,
        &Some("barber-1".to_string()),
        Status::Completed,
        Some("barber-1".to_string()),
        Some(" 2031-01-01T10:00:00Z ".to_string()),
        false,
    );
    assert!(matches!(r, ConditionalOutcome::Success(_)));
    let row = engine.get(id).unwrap();
    assert_eq!(row.status, Status::Completed);
    // the replacement schedule is stored trimmed
    assert_eq!(row.scheduled_for, "2031-01-01T10:00:00Z");
}

#[test]
fn conditional_update_unknown_id() {
    let mut engine = LifecycleEngine::new();
    let r = engine.conditional_update_status(9, &None, Status::Accepted, None, None, true);
    assert!(matches!(r, ConditionalOutcome::NotFound));
}

#[test]
fn status_scan_keeps_only_that_status() {
    let mut engine = LifecycleEngine::new();
    let a = engine.create(details("A"), now());
    let b = engine.create(details("B"), now());
    let c = engine.create(details("C"), now());
    engine
        .barber_update(b, "declined", &"barber-1".to_string())
        .unwrap();
    let pending = engine.list_with_status(Status::Pending);
    let declined = engine.list_with_status(Status::Declined);
    assert_eq!(pending.iter().map(|r| r.id).collect::<Vec<u64>>(), vec![a, c]);
    assert_eq!(declined.iter().map(|r| r.id).collect::<Vec<u64>>(), vec![b]);
    assert!(engine.list_with_status(Status::Completed).is_empty());
}

#[test]
fn barber_queue_holds_own_and_unassigned_pending() {
    let mut engine = LifecycleEngine::new();
    let mine = engine.create(details("A"), now());
    let open = engine.create(details("B"), now());
    let other = engine.create(details("C"), now());
    let retired = engine.create(details("D"), now());
    engine.barber_update(mine, "accepted", &"barber-1".to_string()).unwrap();
    engine.barber_update(other, "accepted", &"barber-2".to_string()).unwrap();
    // an unassigned appointment no longer pending leaves every queue
    engine
        .admin_update(retired, Status::Declined, None, None)
        .unwrap();
    let queue = engine.list_barber_queue(&"barber-1".to_string());
    assert_eq!(queue.iter().map(|r| r.id).collect::<Vec<u64>>(), vec![mine, open]);
}
