//! The load-bearing guarantees of the core, each stated and proved as a
//! law over the specification functions that the operations' own
//! contracts use.

use vstd::prelude::*;

use crate::bus::{spec_deliver, spec_publish, spec_subscribe, BusView};
use crate::coordinator::{spec_barber_updated, spec_booked, spec_first_for, Coordinator};
use crate::dispatch::{
    spec_has_key, spec_key_index, spec_key_match, spec_rows_wf, spec_upsert, PushSubscription,
};
use crate::gateway::{spec_event_of, ChangeEvent, EventKind};
use crate::model::{
    spec_admin_step, spec_assignment_inv, spec_barber_eligible, spec_barber_step, spec_blank,
    spec_booking_issues, spec_new_appointment, Appointment, AuthUser, BookingDetails, Status,
    UpdateError, ValidationIssue,
};

verus! {

/// Claim race: of an unassigned appointment, the first accepted claim
/// wins — it leaves the appointment accepted and assigned to the claiming
/// barber, and any other barber is no longer eligible to touch it.
pub proof fn lemma_claim_race(a: Appointment, first: AuthUser, second: AuthUser)
    requires
        a.barber_id is None,
        first.id@ != second.id@,
    ensures
        spec_barber_step(a, Status::Accepted, first.id).status == Status::Accepted,
        spec_barber_step(a, Status::Accepted, first.id).barber_id == Some(first.id),
        !spec_barber_eligible(spec_barber_step(a, Status::Accepted, first.id), second.id@),
        !crate::model::spec_barber_allowed(
            spec_barber_step(a, Status::Accepted, first.id),
            second.id@,
        ),
{
}

/// Claim race, serialized: two accepted claims by different barbers on an
/// unassigned appointment, in whatever order the store serializes them —
/// exactly one succeeds, the loser is refused with `Forbidden` and leaves
/// no trace, and the stored assignment is the winner's, never both.
pub proof fn lemma_claim_race_serialized(
    s0: Coordinator,
    s1: Coordinator,
    s2: Coordinator,
    id: u64,
    first: AuthUser,
    second: AuthUser,
    now1: String,
    now2: String,
    r1: Result<crate::coordinator::TransitionOutcome, UpdateError>,
    r2: Result<crate::coordinator::TransitionOutcome, UpdateError>,
)
    requires
        id < s0.appointments().len(),
        s0.appointments()[id as int].barber_id is None,
        s0.appointments()[id as int].status != Status::Completed,
        first.id@ != second.id@,
        spec_barber_updated(s0, s1, id, "accepted"@, first, now1, r1),
        spec_barber_updated(s1, s2, id, "accepted"@, second, now2, r2),
    ensures
        r1 is Ok,
        r2 == Err::<crate::coordinator::TransitionOutcome, UpdateError>(UpdateError::Forbidden),
        s2 == s1,
        s2.appointments()[id as int].barber_id == Some(first.id),
        s2.appointments()[id as int].status == Status::Accepted,
{
    reveal_strlit("accepted");
    reveal_strlit("pending");
    reveal_strlit("declined");
    reveal_strlit("completed");
    assert(crate::model::spec_parse_status("accepted"@) == Some(Status::Accepted));
    let row = spec_barber_step(s0.appointments()[id as int], Status::Accepted, first.id);
    assert(s1.appointments() == s0.appointments().update(id as int, row));
    assert(s1.appointments()[id as int] == row);
    assert(!crate::model::spec_barber_allowed(s1.appointments()[id as int], second.id@));
}

/// Assignment invariant, admin path: after an administrator step the
/// invariant holds outright — any assignment the step leaves behind was
/// just set by the administrator — whatever schedule the step stores.
pub proof fn lemma_admin_assignment_invariant(
    a: Appointment,
    status: Status,
    barber_id: Option<String>,
    new_schedule: String,
)
    ensures
        spec_assignment_inv(spec_admin_step(a, status, barber_id, new_schedule)),
{
}

/// Assignment invariant, booking: a fresh booking starts unassigned, so
/// the invariant holds.
pub proof fn lemma_booking_assignment_invariant(id: u64, d: BookingDetails, now: String)
    ensures
        spec_assignment_inv(spec_new_appointment(id, d, now)),
{
}

/// Assignment invariant, barber path. A claim or a completion preserves
/// the invariant, as does any step on an unassigned or admin-assigned
/// appointment. The one exception, excluded here, is a barber moving an
/// appointment it claimed earlier back to `Pending` or `Declined`: the
/// assignment is deliberately kept then, though the status no longer
/// shows it.
pub proof fn lemma_barber_assignment_invariant(a: Appointment, status: Status, actor_id: String)
    requires
        spec_assignment_inv(a),
        status == Status::Accepted || status == Status::Completed || a.barber_id is None
            || a.admin_assigned,
    ensures
        spec_assignment_inv(spec_barber_step(a, status, actor_id)),
{
}

/// Assignment invariant across a booking: with every stored appointment
/// satisfying the invariant, the store after a booking still does — the
/// new row starts unassigned.
pub proof fn lemma_booked_keeps_invariant(
    pre: Coordinator,
    post: Coordinator,
    d: BookingDetails,
    subscription: Option<crate::dispatch::PushSubscriptionInput>,
    now: String,
    r: Result<crate::coordinator::BookingOutcome, Vec<ValidationIssue>>,
)
    requires
        spec_booked(pre, post, d, subscription, now, r),
        forall|i: int|
            0 <= i < pre.appointments().len() ==> spec_assignment_inv(
                #[trigger] pre.appointments()[i],
            ),
    ensures
        forall|i: int|
            0 <= i < post.appointments().len() ==> spec_assignment_inv(
                #[trigger] post.appointments()[i],
            ),
{
    if spec_booking_issues(d).len() == 0 {
        assert forall|i: int| 0 <= i < post.appointments().len() implies spec_assignment_inv(
            #[trigger] post.appointments()[i],
        ) by {
            if i < pre.appointments().len() {
                assert(post.appointments()[i] == pre.appointments()[i]);
            }
        }
    }
}

/// Assignment invariant across an administrator update: whatever the
/// administrator sets, every stored appointment still satisfies the
/// invariant afterwards.
pub proof fn lemma_admin_update_keeps_invariant(
    pre: Coordinator,
    post: Coordinator,
    id: u64,
    status: Status,
    barber_id: Option<String>,
    scheduled_for: Option<String>,
    actor: AuthUser,
    now: String,
    r: Result<crate::coordinator::TransitionOutcome, UpdateError>,
)
    requires
        crate::coordinator::spec_admin_updated(
            pre,
            post,
            id,
            status,
            barber_id,
            scheduled_for,
            actor,
            now,
            r,
        ),
        forall|i: int|
            0 <= i < pre.appointments().len() ==> spec_assignment_inv(
                #[trigger] pre.appointments()[i],
            ),
    ensures
        forall|i: int|
            0 <= i < post.appointments().len() ==> spec_assignment_inv(
                #[trigger] post.appointments()[i],
            ),
{
    if id < pre.appointments().len() {
        assert forall|i: int| 0 <= i < post.appointments().len() implies spec_assignment_inv(
            #[trigger] post.appointments()[i],
        ) by {
            if i != id {
                assert(post.appointments()[i] == pre.appointments()[i]);
            }
        }
    }
}

/// Assignment invariant across a barber update, under the exclusion of
/// [`lemma_barber_assignment_invariant`]: a claim, a completion, or any
/// step on an unassigned or admin-assigned appointment keeps every
/// stored appointment within the invariant.
pub proof fn lemma_barber_update_keeps_invariant(
    pre: Coordinator,
    post: Coordinator,
    id: u64,
    status: Seq<char>,
    actor: AuthUser,
    now: String,
    r: Result<crate::coordinator::TransitionOutcome, UpdateError>,
)
    requires
        spec_barber_updated(pre, post, id, status, actor, now, r),
        forall|i: int|
            0 <= i < pre.appointments().len() ==> spec_assignment_inv(
                #[trigger] pre.appointments()[i],
            ),
        crate::model::spec_parse_status(status) matches Some(st) ==> st == Status::Accepted || st
            == Status::Completed || (id < pre.appointments().len() ==> pre.appointments()[
            id as int
        ].barber_id is None || pre.appointments()[id as int].admin_assigned),
    ensures
        forall|i: int|
            0 <= i < post.appointments().len() ==> spec_assignment_inv(
                #[trigger] post.appointments()[i],
            ),
{
    match crate::model::spec_parse_status(status) {
        None => {},
        Some(st) => {
            if id < pre.appointments().len() && crate::model::spec_barber_allowed(
                pre.appointments()[id as int],
                actor.id@,
            ) {
                lemma_barber_assignment_invariant(pre.appointments()[id as int], st, actor.id);
                assert forall|i: int|
                    0 <= i < post.appointments().len() implies spec_assignment_inv(
                    #[trigger] post.appointments()[i],
                ) by {
                    if i != id {
                        assert(post.appointments()[i] == pre.appointments()[i]);
                    }
                }
            }
        },
    }
}

/// No replay: a subscriber that attaches after an event was published
/// starts with an empty queue and so never observes that event.
pub proof fn lemma_no_replay(b: BusView, e: ChangeEvent)
    ensures
        spec_subscribe(spec_publish(b, e)).subs.last().queue == Seq::<ChangeEvent>::empty(),
        !spec_subscribe(spec_publish(b, e)).subs.last().queue.contains(e),
{
    assert(spec_subscribe(spec_publish(b, e)).subs.last().queue =~= Seq::<
        ChangeEvent,
    >::empty());
}

/// Publish order: a subscriber attached before two publishes, still open
/// and with room for both, observes them appended in publish order.
pub proof fn lemma_publish_order(b: BusView, i: int, e1: ChangeEvent, e2: ChangeEvent)
    requires
        0 <= i < b.subs.len(),
        b.subs[i].open,
        b.subs[i].queue.len() + 2 <= b.capacity,
    ensures
        spec_publish(spec_publish(b, e1), e2).subs[i].queue == b.subs[i].queue + seq![e1, e2],
{
    let b1 = spec_publish(b, e1);
    assert(b1.subs[i] == spec_deliver(b.subs[i], b.capacity, e1));
    assert(b1.subs[i].queue == b.subs[i].queue.push(e1));
    let b2 = spec_publish(b1, e2);
    assert(b2.subs[i].queue == b.subs[i].queue.push(e1).push(e2));
    assert(b.subs[i].queue.push(e1).push(e2) =~= b.subs[i].queue + seq![e1, e2]);
}

/// A freshly opened subscription also observes later events: its queue
/// starts empty, so after two publishes it holds exactly those two, in
/// order.
pub proof fn lemma_fresh_subscriber_order(b: BusView, e1: ChangeEvent, e2: ChangeEvent)
    requires
        b.capacity >= 2,
    ensures
        ({
            let i = spec_subscribe(b).subs.len() - 1;
            spec_publish(spec_publish(spec_subscribe(b), e1), e2).subs[i].queue == seq![e1, e2]
        }),
{
    let b0 = spec_subscribe(b);
    let i = b0.subs.len() - 1;
    lemma_publish_order(b0, i, e1, e2);
    assert(b0.subs[i].queue + seq![e1, e2] =~= seq![e1, e2]);
}

/// Filter correctness: whatever the public per-appointment feed hands
/// out names the requested appointment, never another one. (That it
/// carries no contact or location field is forced by its type, which has
/// no such fields.)
pub proof fn lemma_public_feed_targeted(q: Seq<ChangeEvent>, target: u64)
    ensures
        spec_first_for(q, target) matches Some(e) ==> e.appointment_id == target,
    decreases q.len(),
{
    if q.len() > 0 && q[0].appointment_id != target {
        lemma_public_feed_targeted(q.drop_first(), target);
    }
}

/// Idempotent subscription upsert: submitting the same (appointment,
/// endpoint) pair twice, with whatever keys each time, leaves the store
/// exactly as the second submission alone would — one row for the pair,
/// holding the latest keys.
pub proof fn lemma_upsert_idempotent(
    rows: Seq<PushSubscription>,
    r1: PushSubscription,
    r2: PushSubscription,
)
    requires
        spec_rows_wf(rows),
        r1.appointment_id == r2.appointment_id,
        r1.endpoint@ == r2.endpoint@,
    ensures
        spec_upsert(spec_upsert(rows, r1), r2) =~= spec_upsert(rows, r2),
{
    let id = r1.appointment_id;
    let ep = r1.endpoint@;
    if spec_has_key(rows, id, ep) {
        let k = spec_key_index(rows, id, ep);
        assert(0 <= k < rows.len() && spec_key_match(rows[k], id, ep));
        let u1 = spec_upsert(rows, r1);
        assert(u1 == rows.update(k, r1));
        assert(spec_key_match(u1[k], id, ep));
        assert(spec_has_key(u1, id, ep));
        let k2 = spec_key_index(u1, id, ep);
        assert(0 <= k2 < u1.len() && spec_key_match(u1[k2], id, ep));
        if k2 != k {
            assert(u1[k2] == rows[k2]);
            if k2 < k {
                assert(!spec_key_match(rows[k2], rows[k].appointment_id, rows[k].endpoint@));
            } else {
                assert(!spec_key_match(rows[k], rows[k2].appointment_id, rows[k2].endpoint@));
            }
            assert(false);
        }
        assert(spec_upsert(u1, r2) == u1.update(k, r2));
        assert(u1.update(k, r2) =~= rows.update(k, r2));
    } else {
        let u1 = spec_upsert(rows, r1);
        assert(u1 == rows.push(r1));
        let n = rows.len() as int;
        assert(spec_key_match(u1[n], id, ep));
        assert(spec_has_key(u1, id, ep));
        let k2 = spec_key_index(u1, id, ep);
        assert(0 <= k2 < u1.len() && spec_key_match(u1[k2], id, ep));
        if k2 != n {
            assert(u1[k2] == rows[k2]);
            assert(spec_has_key(rows, id, ep));
            assert(false);
        }
        assert(spec_upsert(u1, r2) == u1.update(n, r2));
        assert(u1.update(n, r2) =~= rows.push(r2));
    }
}

/// After any upsert into a well-formed store, exactly one row carries
/// the submitted (appointment, endpoint) pair, and it is the submitted
/// row — whatever was stored for the pair before.
pub proof fn lemma_upsert_stores_latest(rows: Seq<PushSubscription>, row: PushSubscription)
    requires
        spec_rows_wf(rows),
    ensures
        ({
            let u = spec_upsert(rows, row);
            exists|i: int|
                0 <= i < u.len() && u[i] == row && (forall|j: int|
                    0 <= j < u.len() && j != i ==> !spec_key_match(
                        #[trigger] u[j],
                        row.appointment_id,
                        row.endpoint@,
                    ))
        }),
{
    let id = row.appointment_id;
    let ep = row.endpoint@;
    let u = spec_upsert(rows, row);
    if spec_has_key(rows, id, ep) {
        let k = spec_key_index(rows, id, ep);
        assert(0 <= k < rows.len() && spec_key_match(rows[k], id, ep));
        assert(u == rows.update(k, row));
        assert(u[k] == row);
        assert forall|j: int| 0 <= j < u.len() && j != k implies !spec_key_match(
            #[trigger] u[j],
            id,
            ep,
        ) by {
            assert(u[j] == rows[j]);
            if spec_key_match(rows[j], id, ep) {
                if j < k {
                    assert(!spec_key_match(rows[j], rows[k].appointment_id, rows[k].endpoint@));
                } else {
                    assert(!spec_key_match(rows[k], rows[j].appointment_id, rows[j].endpoint@));
                }
                assert(false);
            }
        }
    } else {
        let n = rows.len() as int;
        assert(u == rows.push(row));
        assert(u[n] == row);
        assert forall|j: int| 0 <= j < u.len() && j != n implies !spec_key_match(
            #[trigger] u[j],
            id,
            ep,
        ) by {
            assert(u[j] == rows[j]);
            if spec_key_match(rows[j], id, ep) {
                assert(spec_has_key(rows, id, ep));
                assert(false);
            }
        }
    }
}

/// Validation completeness: every violated field is reported, none
/// short-circuits another — each issue appears exactly when its field is
/// blank, independently of the other fields.
pub proof fn lemma_validation_completeness(d: BookingDetails)
    ensures
        spec_booking_issues(d).contains(ValidationIssue::NameRequired) <==> spec_blank(
            d.client_name@,
        ),
        spec_booking_issues(d).contains(ValidationIssue::PhoneRequired) <==> spec_blank(
            d.client_phone@,
        ),
        spec_booking_issues(d).contains(ValidationIssue::AddressRequired) <==> spec_blank(
            d.address@,
        ),
        spec_booking_issues(d).contains(ValidationIssue::ServiceRequired) <==> spec_blank(
            d.service@,
        ),
        spec_booking_issues(d).contains(ValidationIssue::ScheduleRequired) <==> spec_blank(
            d.scheduled_for@,
        ),
{
    let issues = spec_booking_issues(d);
    assert forall|v: ValidationIssue| issues.contains(v) implies match v {
        ValidationIssue::NameRequired => spec_blank(d.client_name@),
        ValidationIssue::PhoneRequired => spec_blank(d.client_phone@),
        ValidationIssue::AddressRequired => spec_blank(d.address@),
        ValidationIssue::ServiceRequired => spec_blank(d.service@),
        ValidationIssue::ScheduleRequired => spec_blank(d.scheduled_for@),
    } by {
        let i = choose|i: int| 0 <= i < issues.len() && issues[i] == v;
        assert(issues[i] == v);
    }
    if spec_blank(d.client_name@) {
        assert(issues[0] == ValidationIssue::NameRequired);
        assert(issues.contains(ValidationIssue::NameRequired));
    }
    if spec_blank(d.client_phone@) {
        let i = if spec_blank(d.client_name@) { 1int } else { 0int };
        assert(issues[i] == ValidationIssue::PhoneRequired);
        assert(issues.contains(ValidationIssue::PhoneRequired));
    }
    if spec_blank(d.address@) {
        let i = (if spec_blank(d.client_name@) { 1int } else { 0int }) + (if spec_blank(
            d.client_phone@,
        ) {
            1int
        } else {
            0int
        });
        assert(issues[i] == ValidationIssue::AddressRequired);
        assert(issues.contains(ValidationIssue::AddressRequired));
    }
    if spec_blank(d.service@) {
        let i = (if spec_blank(d.client_name@) { 1int } else { 0int }) + (if spec_blank(
            d.client_phone@,
        ) {
            1int
        } else {
            0int
        }) + (if spec_blank(d.address@) { 1int } else { 0int });
        assert(issues[i] == ValidationIssue::ServiceRequired);
        assert(issues.contains(ValidationIssue::ServiceRequired));
    }
    if spec_blank(d.scheduled_for@) {
        let i = issues.len() - 1;
        assert(issues[i] == ValidationIssue::ScheduleRequired);
        assert(issues.contains(ValidationIssue::ScheduleRequired));
    }
}

/// Dispatcher isolation, in the small: an unconfigured transport plans
/// nothing, whatever the stored subscriptions, the appointment, or the
/// message say.
pub proof fn lemma_unconfigured_plans_nothing(
    cfg: crate::dispatch::PushConfig,
    rows: Seq<PushSubscription>,
    id: u64,
    title: Seq<char>,
    body: Seq<char>,
    msgs: Seq<crate::dispatch::PushMessage>,
)
    requires
        !crate::dispatch::spec_enabled(cfg),
        crate::coordinator::spec_planned(cfg, rows, id, title, body, msgs),
    ensures
        msgs == Seq::<crate::dispatch::PushMessage>::empty(),
{
}

/// Dispatcher isolation: with push delivery unconfigured, a valid booking
/// still succeeds and its event is still published, while the planned
/// deliveries are empty — no transport is ever handed work. An opted-in
/// subscription is still stored for later, so enabling delivery needs no
/// resubmission.
pub proof fn lemma_dispatcher_isolation(
    pre: Coordinator,
    post: Coordinator,
    d: BookingDetails,
    subscription: Option<crate::dispatch::PushSubscriptionInput>,
    now: String,
    r: Result<crate::coordinator::BookingOutcome, Vec<ValidationIssue>>,
)
    requires
        spec_booked(pre, post, d, subscription, now, r),
        spec_booking_issues(d).len() == 0,
        !crate::dispatch::spec_enabled(pre.push_config()),
    ensures
        r is Ok,
        post.appointments() == pre.appointments().push(
            spec_new_appointment(pre.appointments().len() as u64, d, now),
        ),
        post.bus_view() == spec_publish(
            pre.bus_view(),
            spec_event_of(
                EventKind::Created,
                spec_new_appointment(pre.appointments().len() as u64, d, now),
                None,
            ),
        ),
        r matches Ok(out) ==> out.deliveries@ == Seq::<crate::dispatch::PushMessage>::empty(),
        (match subscription {
            Some(si) => post.subs() == spec_upsert(
                pre.subs(),
                crate::dispatch::spec_subscription_row(pre.appointments().len() as u64, si),
            ),
            None => post.subs() == pre.subs(),
        }),
{
}

} // verus!
