//! The coordination core, tying the pieces together: every committed
//! transition goes through here, and each one commits to the store,
//! publishes a change event to the bus, and plans the push deliveries —
//! in that order, with the two fan-out paths never failing the commit.

use vstd::prelude::*;

use crate::bus::{spec_publish, spec_subscribe, spec_unsubscribe, BusView, EventBus};
use crate::clock::now_rfc3339;
use crate::dispatch::{
    spec_enabled, spec_for_appointment, spec_subscription_row, spec_upsert, PushConfig,
    PushMessage, PushSubscription, PushSubscriptionInput, SubscriptionStore,
    plan_notifications,
};
use crate::engine::LifecycleEngine;
use crate::gateway::{spec_event_of, spec_public_view, ChangeEvent, EventKind, PublicStatusEvent};
use crate::model::{
    spec_admin_step, spec_barber_allowed, spec_barber_step, spec_booking_issues,
    spec_new_appointment, spec_parse_status, str_eq, ActivityRow, Appointment, AuthUser, Barber,
    BookingDetails, Status, UpdateError, ValidationIssue,
};
use crate::text::{
    admin_update_message, barber_update_message, booking_message, spec_admin_update_message,
    spec_barber_update_message, spec_booking_message, spec_status_change_body, spec_status_url,
    status_change_body, status_url,
};
use crate::wire::spec_notification_json;

verus! {

/// The display name the directory holds for a barber identifier: the
/// first entry with that identifier, or `None` when the directory has
/// none (the event's name field then degrades to absent).
pub open spec fn spec_lookup_name(barbers: Seq<Barber>, id: Seq<char>) -> Option<String>
    decreases barbers.len(),
{
    if barbers.len() == 0 {
        None
    } else if barbers[0].id@ == id {
        Some(barbers[0].display_name)
    } else {
        spec_lookup_name(barbers.drop_first(), id)
    }
}

/// The barber display name an event snapshot carries for an assignment.
pub open spec fn spec_event_name(barbers: Seq<Barber>, barber_id: Option<String>) -> Option<
    String,
> {
    match barber_id {
        None => None,
        Some(b) => spec_lookup_name(barbers, b@),
    }
}

proof fn lemma_lookup_skip(barbers: Seq<Barber>, id: Seq<char>, i: int)
    requires
        0 <= i <= barbers.len(),
        forall|k: int| 0 <= k < i ==> (#[trigger] barbers[k]).id@ != id,
    ensures
        spec_lookup_name(barbers, id) == spec_lookup_name(barbers.skip(i), id),
    decreases i,
{
    if i > 0 {
        lemma_lookup_skip(barbers, id, i - 1);
        assert(barbers.skip(i - 1).len() > 0);
        assert(barbers.skip(i - 1)[0] == barbers[i - 1]);
        assert(barbers.skip(i - 1).drop_first() =~= barbers.skip(i));
    } else {
        assert(barbers.skip(0) =~= barbers);
    }
}

/// What a successful booking hands back: the fresh identifier, the event
/// that was published, and the planned push deliveries for the caller's
/// transport to attempt.
#[derive(Debug)]
pub struct BookingOutcome {
    pub id: u64,
    pub event: ChangeEvent,
    pub deliveries: Vec<PushMessage>,
}

/// What a successful transition hands back: the committed row, the event
/// that was published, and the planned push deliveries.
#[derive(Debug)]
pub struct TransitionOutcome {
    pub appointment: Appointment,
    pub event: ChangeEvent,
    pub deliveries: Vec<PushMessage>,
}

/// What the planned deliveries of one committed change must look like:
/// nothing when the transport is unconfigured, otherwise one message per
/// subscription of the appointment, all carrying the same payload and
/// linking the appointment's status page.
pub open spec fn spec_planned(
    cfg: PushConfig,
    rows: Seq<PushSubscription>,
    id: u64,
    title: Seq<char>,
    body: Seq<char>,
    msgs: Seq<PushMessage>,
) -> bool {
    if !spec_enabled(cfg) {
        msgs == Seq::<PushMessage>::empty()
    } else {
        let m = spec_for_appointment(rows, id);
        msgs.len() == m.len() && forall|i: int|
            0 <= i < m.len() ==> (#[trigger] msgs[i]).endpoint == m[i].endpoint && msgs[i].p256dh
                == m[i].p256dh && msgs[i].auth == m[i].auth && msgs[i].payload@
                == spec_notification_json(title, body, spec_status_url(id))
    }
}

/// The coordination core: the appointment store, the barber directory,
/// the activity log, the push subscriptions, the event bus and the push
/// configuration.
pub struct Coordinator {
    engine: LifecycleEngine,
    barbers: Vec<Barber>,
    activities: Vec<ActivityRow>,
    subs: SubscriptionStore,
    bus: EventBus,
    push: PushConfig,
}

impl Coordinator {
    /// The stored appointments, oldest first.
    pub closed spec fn appointments(&self) -> Seq<Appointment> {
        self.engine.appointments()
    }

    /// The barber directory.
    pub closed spec fn barbers(&self) -> Seq<Barber> {
        self.barbers@
    }

    /// The activity log, oldest first.
    pub closed spec fn activities(&self) -> Seq<ActivityRow> {
        self.activities@
    }

    /// The stored push subscriptions.
    pub closed spec fn subs(&self) -> Seq<PushSubscription> {
        self.subs.rows()
    }

    /// The state of the event bus.
    pub closed spec fn bus_view(&self) -> BusView {
        self.bus@
    }

    /// The push signing configuration.
    pub closed spec fn push_config(&self) -> PushConfig {
        self.push
    }

    /// Internal consistency: dense appointment identifiers and unique
    /// subscription keys.
    pub closed spec fn wf(&self) -> bool {
        self.engine.wf() && self.subs.wf()
    }

    /// A fresh core with no appointments, no subscribers and an empty
    /// log; each bus subscriber will buffer at most `capacity` events.
    pub fn new(push: PushConfig, capacity: usize) -> (r: Coordinator)
        requires
            capacity >= 1,
        ensures
            r.wf(),
            r.appointments() == Seq::<Appointment>::empty(),
            r.barbers() == Seq::<Barber>::empty(),
            r.activities() == Seq::<ActivityRow>::empty(),
            r.subs() == Seq::<PushSubscription>::empty(),
            r.bus_view().subs == Seq::<crate::bus::SubscriberView>::empty(),
            r.bus_view().capacity == capacity,
            r.push_config() == push,
    {
        Coordinator {
            engine: LifecycleEngine::new(),
            barbers: Vec::new(),
            activities: Vec::new(),
            subs: SubscriptionStore::new(),
            bus: EventBus::new(capacity),
            push,
        }
    }

    /// Registers a barber in the directory, so later events can carry the
    /// display name.
    pub fn add_barber(&mut self, id: String, display_name: String)
        requires
            old(self).wf(),
        ensures
            final(self).wf(),
            final(self).barbers() == old(self).barbers().push(Barber { id, display_name }),
            final(self).appointments() == old(self).appointments(),
            final(self).activities() == old(self).activities(),
            final(self).subs() == old(self).subs(),
            final(self).bus_view() == old(self).bus_view(),
            final(self).push_config() == old(self).push_config(),
    {
        self.barbers.push(Barber { id, display_name });
    }

    /// Looks up the display name carried for an assignment, first match
    /// by identifier; `None` for an unassigned appointment or an unknown
    /// barber.
    pub fn barber_name_of(&self, barber_id: &Option<String>) -> (r: Option<String>)
        ensures
            r == spec_event_name(self.barbers(), *barber_id),
    {
        let target = match barber_id {
            None => {
                return None;
            },
            Some(b) => b,
        };
        let n = self.barbers.len();
        let mut i: usize = 0;
        while i < n
            invariant
                n == self.barbers().len(),
                i <= n,
                *barber_id == Some(*target),
                forall|k: int| 0 <= k < i ==> (#[trigger] self.barbers()[k]).id@ != target@,
            decreases n - i,
        {
            if str_eq(self.barbers[i].id.as_str(), target.as_str()) {
                proof {
                    lemma_lookup_skip(self.barbers(), target@, i as int);
                    assert(self.barbers().skip(i as int).len() > 0);
                    assert(self.barbers().skip(i as int)[0] == self.barbers()[i as int]);
                    assert(spec_lookup_name(self.barbers(), target@) == Some(
                        self.barbers()[i as int].display_name,
                    ));
                }
                return Some(self.barbers[i].display_name.clone());
            }
            i = i + 1;
        }
        proof {
            lemma_lookup_skip(self.barbers(), target@, n as int);
            assert(self.barbers().skip(n as int).len() == 0);
        }
        None
    }

    /// Point read of one appointment; `None` for an unknown identifier.
    pub fn get_appointment(&self, id: u64) -> (r: Option<Appointment>)
        ensures
            id < self.appointments().len() ==> r == Some(self.appointments()[id as int]),
            id >= self.appointments().len() ==> r is None,
    {
        self.engine.get(id)
    }

    /// How many appointments were ever booked.
    pub fn appointment_count(&self) -> (r: usize)
        ensures
            r == self.appointments().len(),
    {
        self.engine.count()
    }

    /// Every appointment, oldest first.
    pub fn all_appointments(&self) -> (r: Vec<Appointment>)
        ensures
            r@ == self.appointments(),
    {
        self.engine.list_all()
    }

    /// Filtered scan: every appointment holding one status, in stored
    /// order.
    pub fn appointments_with_status(&self, status: Status) -> (r: Vec<Appointment>)
        ensures
            r@ == crate::engine::spec_with_status(self.appointments(), status),
    {
        self.engine.list_with_status(status)
    }

    /// One barber's work queue: their own appointments plus every
    /// unassigned pending one, in stored order.
    pub fn barber_queue(&self, barber_id: &String) -> (r: Vec<Appointment>)
        ensures
            r@ == crate::engine::spec_barber_queue(self.appointments(), barber_id@),
    {
        self.engine.list_barber_queue(barber_id)
    }

    /// Books an appointment at the given instant. Every validation
    /// problem is collected and reported together; on success the new
    /// `Pending`, unassigned appointment is committed, its creation event
    /// is published, and — when the client opted in — its subscription is
    /// stored and the deliveries are planned.
    pub fn book_appointment_at(
        &mut self,
        d: BookingDetails,
        subscription: Option<PushSubscriptionInput>,
        now: String,
    ) -> (r: Result<BookingOutcome, Vec<ValidationIssue>>)
        requires
            old(self).wf(),
            old(self).appointments().len() < u64::MAX,
        ensures
            final(self).wf(),
            spec_booked(*old(self), *final(self), d, subscription, now, r),
    {
        let issues = crate::model::validate_booking(&d);
        if issues.len() > 0 {
            return Err(issues);
        }
        let msg = booking_message(d.client_name.as_str());
        let id = self.engine.create(d, now.clone());
        self.activities.push(ActivityRow { message: msg, created_at: now });
        proof {
            assert(self.activities().drop_last() =~= old(self).activities());
        }
        let had_sub = subscription.is_some();
        match subscription {
            Some(si) => self.subs.upsert(id, si),
            None => {},
        }
        let row = match self.engine.get(id) {
            Some(row) => row,
            None => {
                return vstd::pervasive::unreached();
            },
        };
        let barber_name = self.barber_name_of(&row.barber_id);
        let ev = ChangeEvent::from_appointment(EventKind::Created, &row, barber_name);
        self.bus.publish(&ev);
        let deliveries = if had_sub {
            plan_notifications(
                &self.push,
                &self.subs,
                id,
                "Appointment request received",
                "We received your booking request. We'll confirm shortly.",
                status_url(id).as_str(),
            )
        } else {
            Vec::new()
        };
        Ok(BookingOutcome { id, event: ev, deliveries })
    }

    /// Books an appointment, stamped with the current instant.
    pub fn book_appointment(
        &mut self,
        d: BookingDetails,
        subscription: Option<PushSubscriptionInput>,
    ) -> (r: Result<BookingOutcome, Vec<ValidationIssue>>)
        requires
            old(self).wf(),
            old(self).appointments().len() < u64::MAX,
        ensures
            final(self).wf(),
            exists|now: String| spec_booked(*old(self), *final(self), d, subscription, now, r),
    {
        let now = now_rfc3339();
        let ghost w = now;
        let r = self.book_appointment_at(d, subscription, now);
        proof {
            assert(spec_booked(*old(self), *self, d, subscription, w, r));
        }
        r
    }
}

impl Coordinator {
    /// Applies an administrator transition at the given instant: any
    /// status from any status, the assignment rewritten freely, a
    /// non-blank schedule replacing the stored one. On success the update
    /// event is published and the deliveries are planned; `NotFound` is
    /// the only error.
    pub fn admin_update_at(
        &mut self,
        id: u64,
        status: Status,
        barber_id: Option<String>,
        scheduled_for: Option<String>,
        actor: &AuthUser,
        now: String,
    ) -> (r: Result<TransitionOutcome, UpdateError>)
        requires
            old(self).wf(),
        ensures
            final(self).wf(),
            spec_admin_updated(
                *old(self),
                *final(self),
                id,
                status,
                barber_id,
                scheduled_for,
                *actor,
                now,
                r,
            ),
    {
        let row = match self.engine.admin_update(id, status, barber_id, scheduled_for) {
            Ok(row) => row,
            Err(e) => {
                return Err(e);
            },
        };
        let msg = admin_update_message(actor.display_name.as_str(), id);
        self.activities.push(ActivityRow { message: msg, created_at: now });
        proof {
            assert(self.activities().drop_last() =~= old(self).activities());
        }
        let barber_name = self.barber_name_of(&row.barber_id);
        let ev = ChangeEvent::from_appointment(EventKind::Updated, &row, barber_name);
        self.bus.publish(&ev);
        let body = status_change_body(status.label());
        let deliveries = plan_notifications(
            &self.push,
            &self.subs,
            id,
            "Appointment updated",
            body.as_str(),
            status_url(id).as_str(),
        );
        Ok(TransitionOutcome { appointment: row, event: ev, deliveries })
    }

    /// Applies an administrator transition, stamped with the current
    /// instant.
    pub fn admin_update(
        &mut self,
        id: u64,
        status: Status,
        barber_id: Option<String>,
        scheduled_for: Option<String>,
        actor: &AuthUser,
    ) -> (r: Result<TransitionOutcome, UpdateError>)
        requires
            old(self).wf(),
        ensures
            final(self).wf(),
            exists|now: String|
                spec_admin_updated(
                    *old(self),
                    *final(self),
                    id,
                    status,
                    barber_id,
                    scheduled_for,
                    *actor,
                    now,
                    r,
                ),
    {
        let now = now_rfc3339();
        let ghost w = now;
        let r = self.admin_update_at(id, status, barber_id, scheduled_for, actor, now);
        proof {
            assert(spec_admin_updated(
                *old(self),
                *self,
                id,
                status,
                barber_id,
                scheduled_for,
                *actor,
                w,
                r,
            ));
        }
        r
    }

    /// Applies a barber self-service transition at the given instant. The
    /// checks and the commit are one atomic step of the serialized store,
    /// so of two concurrent claims exactly one sees the appointment
    /// unassigned and wins; the loser is refused with `Forbidden`, as is
    /// any barber touching a completed appointment.
    pub fn barber_update_at(
        &mut self,
        id: u64,
        status: &str,
        actor: &AuthUser,
        now: String,
    ) -> (r: Result<TransitionOutcome, UpdateError>)
        requires
            old(self).wf(),
        ensures
            final(self).wf(),
            spec_barber_updated(*old(self), *final(self), id, status@, *actor, now, r),
    {
        let row = match self.engine.barber_update(id, status, &actor.id) {
            Ok(row) => row,
            Err(e) => {
                return Err(e);
            },
        };
        let msg = barber_update_message(actor.display_name.as_str(), id, status);
        self.activities.push(ActivityRow { message: msg, created_at: now });
        proof {
            assert(self.activities().drop_last() =~= old(self).activities());
        }
        let barber_name = self.barber_name_of(&row.barber_id);
        let ev = ChangeEvent::from_appointment(EventKind::Updated, &row, barber_name);
        self.bus.publish(&ev);
        let body = status_change_body(status);
        let deliveries = plan_notifications(
            &self.push,
            &self.subs,
            id,
            "Appointment updated",
            body.as_str(),
            status_url(id).as_str(),
        );
        Ok(TransitionOutcome { appointment: row, event: ev, deliveries })
    }

    /// Applies a barber transition, stamped with the current instant.
    pub fn barber_update(&mut self, id: u64, status: &str, actor: &AuthUser) -> (r: Result<
        TransitionOutcome,
        UpdateError,
    >)
        requires
            old(self).wf(),
        ensures
            final(self).wf(),
            exists|now: String|
                spec_barber_updated(*old(self), *final(self), id, status@, *actor, now, r),
    {
        let now = now_rfc3339();
        let ghost w = now;
        let r = self.barber_update_at(id, status, actor, now);
        proof {
            assert(spec_barber_updated(*old(self), *self, id, status@, *actor, w, r));
        }
        r
    }
}

impl Coordinator {
    /// Registers (or refreshes) a push subscription for an appointment:
    /// `NotFound` for an unknown identifier; otherwise the (appointment,
    /// endpoint) pair afterwards has exactly one stored row holding these
    /// keys, and the deliveries of the confirmation notice are planned.
    pub fn subscribe_to_push(&mut self, appointment_id: u64, input: PushSubscriptionInput) -> (r:
        Result<Vec<PushMessage>, UpdateError>)
        requires
            old(self).wf(),
        ensures
            final(self).wf(),
            spec_push_subscribed(*old(self), *final(self), appointment_id, input, r),
    {
        if appointment_id >= self.engine.count() as u64 {
            return Err(UpdateError::NotFound);
        }
        self.subs.upsert(appointment_id, input);
        let deliveries = plan_notifications(
            &self.push,
            &self.subs,
            appointment_id,
            "Notifications enabled",
            "You'll receive updates about your appointment.",
            status_url(appointment_id).as_str(),
        );
        Ok(deliveries)
    }

    /// Plans the "notifications enabled" confirmation for an appointment's
    /// already-stored subscriptions without changing anything — what an
    /// opt-in attempt owes even when its payload could not be read.
    pub fn confirmation_deliveries(&self, appointment_id: u64) -> (r: Vec<PushMessage>)
        ensures
            spec_planned(
                self.push_config(),
                self.subs(),
                appointment_id,
                "Notifications enabled"@,
                "You'll receive updates about your appointment."@,
                r@,
            ),
    {
        plan_notifications(
            &self.push,
            &self.subs,
            appointment_id,
            "Notifications enabled",
            "You'll receive updates about your appointment.",
            status_url(appointment_id).as_str(),
        )
    }

    /// Opens the privileged feed: a fresh, live-only subscription that
    /// will see every later event in full, and nothing published earlier.
    pub fn open_privileged_stream(&mut self) -> (id: usize)
        requires
            old(self).wf(),
        ensures
            final(self).wf(),
            id == old(self).bus_view().subs.len(),
            final(self).bus_view() == spec_subscribe(old(self).bus_view()),
            unchanged_but_bus(*old(self), *final(self)),
    {
        self.bus.subscribe()
    }

    /// Opens a public per-appointment feed: the same live-only
    /// subscription, read through [`Coordinator::poll_public`] with the
    /// appointment as its target.
    pub fn open_public_stream(&mut self, appointment_id: u64) -> (id: usize)
        requires
            old(self).wf(),
        ensures
            final(self).wf(),
            id == old(self).bus_view().subs.len(),
            final(self).bus_view() == spec_subscribe(old(self).bus_view()),
            unchanged_but_bus(*old(self), *final(self)),
    {
        let _ = appointment_id;
        self.bus.subscribe()
    }

    /// Takes the next pending event of the privileged feed, in publish
    /// order.
    pub fn poll_privileged(&mut self, sub: usize) -> (r: Option<ChangeEvent>)
        requires
            old(self).wf(),
            sub < old(self).bus_view().subs.len(),
        ensures
            final(self).wf(),
            unchanged_but_bus(*old(self), *final(self)),
            final(self).bus_view().capacity == old(self).bus_view().capacity,
            final(self).bus_view().subs.len() == old(self).bus_view().subs.len(),
            forall|j: int|
                0 <= j < old(self).bus_view().subs.len() && j != sub ==> #[trigger] final(self).bus_view().subs[j] == old(self).bus_view().subs[j],
            old(self).bus_view().subs[sub as int].queue.len() == 0 ==> r is None && final(self).bus_view().subs[sub as int] == old(self).bus_view().subs[sub as int],
            old(self).bus_view().subs[sub as int].queue.len() > 0 ==> r == Some(
                old(self).bus_view().subs[sub as int].queue[0],
            ) && final(self).bus_view().subs[sub as int] == (crate::bus::SubscriberView {
                queue: old(self).bus_view().subs[sub as int].queue.drop_first(),
                open: old(self).bus_view().subs[sub as int].open,
            }),
    {
        self.bus.poll(sub)
    }

    /// Takes the next pending event of a public feed that concerns its
    /// target appointment, dropping pending events of other appointments
    /// on the way. What comes back never names another appointment and
    /// never carries contact or location fields.
    pub fn poll_public(&mut self, sub: usize, target: u64) -> (r: Option<PublicStatusEvent>)
        requires
            old(self).wf(),
            sub < old(self).bus_view().subs.len(),
        ensures
            final(self).wf(),
            unchanged_but_bus(*old(self), *final(self)),
            final(self).bus_view().capacity == old(self).bus_view().capacity,
            final(self).bus_view().subs.len() == old(self).bus_view().subs.len(),
            forall|j: int|
                0 <= j < old(self).bus_view().subs.len() && j != sub ==> #[trigger] final(self).bus_view().subs[j] == old(self).bus_view().subs[j],
            final(self).bus_view().subs[sub as int].open == old(self).bus_view().subs[
                sub as int
            ].open,
            final(self).bus_view().subs[sub as int].queue == spec_queue_after(
                old(self).bus_view().subs[sub as int].queue,
                target,
            ),
            r == (match spec_first_for(old(self).bus_view().subs[sub as int].queue, target) {
                None => None::<PublicStatusEvent>,
                Some(e) => Some(spec_public_view(e)),
            }),
    {
        let ghost q0 = self.bus_view().subs[sub as int].queue;
        let mut out: Option<PublicStatusEvent> = None;
        let mut running = true;
        while running
            invariant
                sub < self.bus_view().subs.len(),
                self.wf(),
                unchanged_but_bus(*old(self), *self),
                self.bus_view().capacity == old(self).bus_view().capacity,
                self.bus_view().subs.len() == old(self).bus_view().subs.len(),
                q0 == old(self).bus_view().subs[sub as int].queue,
                forall|j: int|
                    0 <= j < old(self).bus_view().subs.len() && j != sub ==> #[trigger] self.bus_view().subs[j]
                        == old(self).bus_view().subs[j],
                self.bus_view().subs[sub as int].open == old(self).bus_view().subs[sub as int].open,
                running ==> out is None,
                running ==> spec_first_for(q0, target) == spec_first_for(
                    self.bus_view().subs[sub as int].queue,
                    target,
                ),
                running ==> spec_queue_after(q0, target) == spec_queue_after(
                    self.bus_view().subs[sub as int].queue,
                    target,
                ),
                !running ==> self.bus_view().subs[sub as int].queue == spec_queue_after(
                    q0,
                    target,
                ),
                !running ==> out == (match spec_first_for(q0, target) {
                    None => None::<PublicStatusEvent>,
                    Some(e) => Some(spec_public_view(e)),
                }),
            decreases self.bus_view().subs[sub as int].queue.len() + (if running {
                1int
            } else {
                0int
            }),
        {
            match self.bus.poll(sub) {
                None => {
                    running = false;
                },
                Some(e) => {
                    match crate::gateway::filter_public(&e, target) {
                        Some(p) => {
                            out = Some(p);
                            running = false;
                        },
                        None => {},
                    }
                },
            }
        }
        out
    }

    /// The stored subscriptions of one appointment, in stored order.
    pub fn list_subscriptions(&self, appointment_id: u64) -> (r: Vec<PushSubscription>)
        ensures
            r@ == spec_for_appointment(self.subs(), appointment_id),
    {
        self.subs.list_for(appointment_id)
    }

    /// The activity log, oldest first.
    pub fn activity_log(&self) -> (r: Vec<ActivityRow>)
        ensures
            r@.len() == self.activities().len(),
            forall|i: int|
                0 <= i < self.activities().len() ==> (#[trigger] r@[i]).message
                    == self.activities()[i].message && r@[i].created_at == self.activities()[
                    i
                ].created_at,
    {
        let n = self.activities.len();
        let mut out: Vec<ActivityRow> = Vec::new();
        let mut i: usize = 0;
        while i < n
            invariant
                n == self.activities().len(),
                i <= n,
                out@.len() == i,
                forall|k: int|
                    0 <= k < i ==> (#[trigger] out@[k]).message == self.activities()[k].message
                        && out@[k].created_at == self.activities()[k].created_at,
            decreases n - i,
        {
            out.push(
                ActivityRow {
                    message: self.activities[i].message.clone(),
                    created_at: self.activities[i].created_at.clone(),
                },
            );
            i = i + 1;
        }
        out
    }

    /// Closes a stream subscription promptly, releasing its backlog.
    pub fn close_stream(&mut self, sub: usize)
        requires
            old(self).wf(),
            sub < old(self).bus_view().subs.len(),
        ensures
            final(self).wf(),
            unchanged_but_bus(*old(self), *final(self)),
            final(self).bus_view() == spec_unsubscribe(old(self).bus_view(), sub as int),
    {
        self.bus.unsubscribe(sub)
    }
}

/// Everything of the core except the bus is the same in both states.
pub open spec fn unchanged_but_bus(pre: Coordinator, post: Coordinator) -> bool {
    &&& post.appointments() == pre.appointments()
    &&& post.barbers() == pre.barbers()
    &&& post.activities() == pre.activities()
    &&& post.subs() == pre.subs()
    &&& post.push_config() == pre.push_config()
}

/// The first pending event of a queue that concerns one appointment.
pub open spec fn spec_first_for(q: Seq<ChangeEvent>, target: u64) -> Option<ChangeEvent>
    decreases q.len(),
{
    if q.len() == 0 {
        None
    } else if q[0].appointment_id == target {
        Some(q[0])
    } else {
        spec_first_for(q.drop_first(), target)
    }
}

/// What remains queued once the first event for one appointment (and the
/// foreign events before it) are taken.
pub open spec fn spec_queue_after(q: Seq<ChangeEvent>, target: u64) -> Seq<ChangeEvent>
    decreases q.len(),
{
    if q.len() == 0 {
        q
    } else if q[0].appointment_id == target {
        q.drop_first()
    } else {
        spec_queue_after(q.drop_first(), target)
    }
}

/// What a push opt-in does. An unknown appointment is refused with
/// `NotFound` and nothing changes. Otherwise the (appointment, endpoint)
/// pair is upserted — one stored row, holding the latest keys — nothing
/// else changes, and the confirmation deliveries are planned.
pub open spec fn spec_push_subscribed(
    pre: Coordinator,
    post: Coordinator,
    appointment_id: u64,
    input: PushSubscriptionInput,
    r: Result<Vec<PushMessage>, UpdateError>,
) -> bool {
    if appointment_id >= pre.appointments().len() {
        &&& r == Err::<Vec<PushMessage>, UpdateError>(UpdateError::NotFound)
        &&& post == pre
    } else {
        &&& post.subs() == spec_upsert(pre.subs(), spec_subscription_row(appointment_id, input))
        &&& post.appointments() == pre.appointments()
        &&& post.barbers() == pre.barbers()
        &&& post.activities() == pre.activities()
        &&& post.bus_view() == pre.bus_view()
        &&& post.push_config() == pre.push_config()
        &&& (match r {
            Ok(msgs) => spec_planned(
                pre.push_config(),
                post.subs(),
                appointment_id,
                "Notifications enabled"@,
                "You'll receive updates about your appointment."@,
                msgs@,
            ),
            Err(_) => false,
        })
    }
}

/// What an administrator update does. An unknown identifier is refused
/// with `NotFound` and nothing changes. Otherwise the step of
/// [`spec_admin_step`] is committed — a non-blank replacement schedule
/// stored trimmed — one activity line is recorded, the update event —
/// carrying the assignment's display name as far as the directory knows
/// it — is published, and the deliveries are planned.
pub open spec fn spec_admin_updated(
    pre: Coordinator,
    post: Coordinator,
    id: u64,
    status: Status,
    barber_id: Option<String>,
    scheduled_for: Option<String>,
    actor: AuthUser,
    now: String,
    r: Result<TransitionOutcome, UpdateError>,
) -> bool {
    if id >= pre.appointments().len() {
        &&& r == Err::<TransitionOutcome, UpdateError>(UpdateError::NotFound)
        &&& post == pre
    } else {
        let prior = pre.appointments()[id as int];
        match r {
            Ok(out) => {
                let row = out.appointment;
                &&& row == spec_admin_step(prior, status, barber_id, row.scheduled_for)
                &&& row.scheduled_for@ == crate::model::spec_schedule_after(
                    prior.scheduled_for@,
                    scheduled_for,
                )
                &&& out.event == spec_event_of(EventKind::Updated, row, spec_event_name(
                    pre.barbers(),
                    row.barber_id,
                ))
                &&& post.appointments() == pre.appointments().update(id as int, row)
                &&& post.barbers() == pre.barbers()
                &&& post.subs() == pre.subs()
                &&& post.activities().len() == pre.activities().len() + 1
                &&& post.activities().drop_last() == pre.activities()
                &&& post.activities().last().message@ == spec_admin_update_message(
                    actor.display_name@,
                    id,
                )
                &&& post.activities().last().created_at == now
                &&& post.bus_view() == spec_publish(pre.bus_view(), out.event)
                &&& post.push_config() == pre.push_config()
                &&& spec_planned(
                    pre.push_config(),
                    post.subs(),
                    id,
                    "Appointment updated"@,
                    spec_status_change_body(status.spec_label()),
                    out.deliveries@,
                )
            },
            Err(_) => false,
        }
    }
}

/// What a barber update does. In request order: an unknown status
/// spelling is refused with `InvalidStatus`, an unknown identifier with
/// `NotFound`, and an appointment assigned to someone else — or already
/// completed, which only an administrator may revisit — with `Forbidden`,
/// each leaving everything unchanged. Otherwise the step of
/// [`spec_barber_step`] is committed — accepting claims the appointment
/// for the acting barber — one activity line is recorded, the update
/// event is published, and the deliveries are planned.
pub open spec fn spec_barber_updated(
    pre: Coordinator,
    post: Coordinator,
    id: u64,
    status: Seq<char>,
    actor: AuthUser,
    now: String,
    r: Result<TransitionOutcome, UpdateError>,
) -> bool {
    match spec_parse_status(status) {
        None => {
            &&& r == Err::<TransitionOutcome, UpdateError>(UpdateError::InvalidStatus)
            &&& post == pre
        },
        Some(st) => {
            if id >= pre.appointments().len() {
                &&& r == Err::<TransitionOutcome, UpdateError>(UpdateError::NotFound)
                &&& post == pre
            } else if !spec_barber_allowed(pre.appointments()[id as int], actor.id@) {
                &&& r == Err::<TransitionOutcome, UpdateError>(UpdateError::Forbidden)
                &&& post == pre
            } else {
                let row = spec_barber_step(pre.appointments()[id as int], st, actor.id);
                let ev = spec_event_of(EventKind::Updated, row, spec_event_name(
                    pre.barbers(),
                    row.barber_id,
                ));
                match r {
                    Ok(out) => {
                        &&& out.appointment == row
                        &&& out.event == ev
                        &&& post.appointments() == pre.appointments().update(id as int, row)
                        &&& post.barbers() == pre.barbers()
                        &&& post.subs() == pre.subs()
                        &&& post.activities().len() == pre.activities().len() + 1
                        &&& post.activities().drop_last() == pre.activities()
                        &&& post.activities().last().message@ == spec_barber_update_message(
                            actor.display_name@,
                            id,
                            status,
                        )
                        &&& post.activities().last().created_at == now
                        &&& post.bus_view() == spec_publish(pre.bus_view(), ev)
                        &&& post.push_config() == pre.push_config()
                        &&& spec_planned(
                            pre.push_config(),
                            post.subs(),
                            id,
                            "Appointment updated"@,
                            spec_status_change_body(status),
                            out.deliveries@,
                        )
                    },
                    Err(_) => false,
                }
            }
        },
    }
}

/// What a booking does. With any validation problem, the exact list of
/// problems comes back and nothing changes. Otherwise: the appointment is
/// committed with the next identifier, `Pending` and unassigned; one
/// activity line is recorded; the opted-in subscription (if any) is
/// upserted; the creation event is published to every live subscriber;
/// and the planned deliveries follow the push configuration and the
/// stored subscriptions.
pub open spec fn spec_booked(
    pre: Coordinator,
    post: Coordinator,
    d: BookingDetails,
    subscription: Option<PushSubscriptionInput>,
    now: String,
    r: Result<BookingOutcome, Vec<ValidationIssue>>,
) -> bool {
    let issues = spec_booking_issues(d);
    if issues.len() > 0 {
        &&& r matches Err(e) && e@ == issues
        &&& post == pre
    } else {
        let id = pre.appointments().len() as u64;
        let row = spec_new_appointment(id, d, now);
        let ev = spec_event_of(EventKind::Created, row, None);
        match r {
            Ok(out) => {
                &&& out.id == id
                &&& out.event == ev
                &&& post.appointments() == pre.appointments().push(row)
                &&& post.barbers() == pre.barbers()
                &&& post.activities().len() == pre.activities().len() + 1
                &&& post.activities().drop_last() == pre.activities()
                &&& post.activities().last().message@ == spec_booking_message(d.client_name@)
                &&& post.activities().last().created_at == now
                &&& (match subscription {
                    Some(si) => post.subs() == spec_upsert(
                        pre.subs(),
                        spec_subscription_row(id, si),
                    ),
                    None => post.subs() == pre.subs(),
                })
                &&& post.bus_view() == spec_publish(pre.bus_view(), ev)
                &&& post.push_config() == pre.push_config()
                &&& (match subscription {
                    Some(_) => spec_planned(
                        pre.push_config(),
                        post.subs(),
                        id,
                        "Appointment request received"@,
                        "We received your booking request. We'll confirm shortly."@,
                        out.deliveries@,
                    ),
                    None => out.deliveries@ == Seq::<PushMessage>::empty(),
                })
            },
            Err(_) => false,
        }
    }
}

} // verus!
