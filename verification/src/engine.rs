//! The lifecycle engine: the serialized store of appointment rows and the
//! only writer of status and assignment. Each `&mut self` operation is one
//! atomic step, so concurrent transitions on one appointment resolve in
//! some serial order, and the conditional checks inside `barber_update`
//! make the claim race deterministic: the first accepted claim wins.

use vstd::prelude::*;
use vstd::pervasive::VecAdditionalExecFns;

use crate::model::{
    clone_opt_string, is_blank, parse_status, spec_admin_step, spec_barber_allowed,
    spec_barber_step, spec_conditional_step, spec_new_appointment, spec_parse_status,
    spec_schedule_after, str_eq, trimmed, Appointment, BookingDetails, Status, UpdateError,
};

verus! {

/// Whether a stored assignment equals an expected one: both absent, or
/// both the same barber.
pub open spec fn spec_same_assignment(current: Option<String>, expected: Option<String>) -> bool {
    match (current, expected) {
        (None, None) => true,
        (Some(c), Some(e)) => c@ == e@,
        _ => false,
    }
}

/// The outcome of a conditional update: the committed row, a lost
/// compare-and-set, or an unknown identifier.
#[derive(Debug)]
pub enum ConditionalOutcome {
    Success(Appointment),
    Conflict,
    NotFound,
}

/// The rows holding one status, in stored order.
pub open spec fn spec_with_status(rows: Seq<Appointment>, status: Status) -> Seq<Appointment>
    decreases rows.len(),
{
    if rows.len() == 0 {
        Seq::empty()
    } else if rows.last().status == status {
        spec_with_status(rows.drop_last(), status).push(rows.last())
    } else {
        spec_with_status(rows.drop_last(), status)
    }
}

/// Whether a row belongs on one barber's work queue: assigned to that
/// barber, or unassigned and still pending.
pub open spec fn spec_on_queue(a: Appointment, barber: Seq<char>) -> bool {
    match a.barber_id {
        Some(b) => b@ == barber,
        None => a.status == Status::Pending,
    }
}

/// The rows of one barber's work queue, in stored order.
pub open spec fn spec_barber_queue(rows: Seq<Appointment>, barber: Seq<char>) -> Seq<Appointment>
    decreases rows.len(),
{
    if rows.len() == 0 {
        Seq::empty()
    } else if spec_on_queue(rows.last(), barber) {
        spec_barber_queue(rows.drop_last(), barber).push(rows.last())
    } else {
        spec_barber_queue(rows.drop_last(), barber)
    }
}

/// The appointment store. Identifiers are dense: the row with identifier
/// `i` sits at index `i`, so a fresh booking gets the next identifier and
/// identifiers are never reused.
pub struct LifecycleEngine {
    appointments: Vec<Appointment>,
}

impl LifecycleEngine {
    /// The stored appointment rows, oldest first.
    pub closed spec fn appointments(&self) -> Seq<Appointment> {
        self.appointments@
    }

    /// Each row's identifier equals its position, so lookups by identifier
    /// are exact.
    pub open spec fn wf(&self) -> bool {
        forall|i: int|
            0 <= i < self.appointments().len() ==> (#[trigger] self.appointments()[i]).id == i
    }

    /// An empty store.
    pub fn new() -> (r: LifecycleEngine)
        ensures
            r.appointments() == Seq::<Appointment>::empty(),
            r.wf(),
    {
        LifecycleEngine { appointments: Vec::new() }
    }

    /// How many appointments were ever created.
    pub fn count(&self) -> (r: usize)
        ensures
            r == self.appointments().len(),
    {
        self.appointments.len()
    }

    /// Persists a new appointment with status `Pending` and no barber, and
    /// returns its fresh identifier.
    pub fn create(&mut self, d: BookingDetails, now: String) -> (id: u64)
        requires
            old(self).wf(),
            old(self).appointments().len() < u64::MAX,
        ensures
            id == old(self).appointments().len(),
            final(self).appointments() == old(self).appointments().push(
                spec_new_appointment(id, d, now),
            ),
            final(self).wf(),
    {
        let id = self.appointments.len() as u64;
        let row = Appointment {
            id,
            client_name: d.client_name,
            client_phone: d.client_phone,
            client_email: d.client_email,
            address: d.address,
            service: d.service,
            notes: d.notes,
            requested_at: now,
            scheduled_for: d.scheduled_for,
            status: Status::Pending,
            barber_id: None,
            location: d.location,
            admin_assigned: false,
        };
        self.appointments.push(row);
        id
    }

    /// Point read: an exact copy of the row, or `None` for an unknown
    /// identifier.
    pub fn get(&self, id: u64) -> (r: Option<Appointment>)
        ensures
            id < self.appointments().len() ==> r == Some(self.appointments()[id as int]),
            id >= self.appointments().len() ==> r is None,
    {
        if id < self.appointments.len() as u64 {
            Some(self.appointments[id as usize].snapshot())
        } else {
            None
        }
    }

    /// The administrator transition: any status from any status, the
    /// assignment rewritten freely, the schedule replaced — stored trimmed
    /// — when a non-blank one is given. Fails only with `NotFound` on an
    /// unknown identifier.
    pub fn admin_update(
        &mut self,
        id: u64,
        status: Status,
        barber_id: Option<String>,
        scheduled_for: Option<String>,
    ) -> (r: Result<Appointment, UpdateError>)
        requires
            old(self).wf(),
        ensures
            final(self).wf(),
            id >= old(self).appointments().len() ==> r == Err::<Appointment, UpdateError>(
                UpdateError::NotFound,
            ) && *final(self) == *old(self),
            id < old(self).appointments().len() ==> {
                let prior = old(self).appointments()[id as int];
                r matches Ok(row) && row == spec_admin_step(
                    prior,
                    status,
                    barber_id,
                    row.scheduled_for,
                ) && row.scheduled_for@ == spec_schedule_after(prior.scheduled_for@, scheduled_for)
                    && final(self).appointments() == old(self).appointments().update(
                    id as int,
                    row,
                )
            },
    {
        if id >= self.appointments.len() as u64 {
            return Err(UpdateError::NotFound);
        }
        let i = id as usize;
        let current = self.appointments[i].snapshot();
        let reschedule = match &scheduled_for {
            Some(s) => !is_blank(s.as_str()),
            None => false,
        };
        let new_schedule: String = if reschedule {
            match &scheduled_for {
                Some(s) => trimmed(s.as_str()).to_owned(),
                None => vstd::pervasive::unreached(),
            }
        } else {
            current.scheduled_for
        };
        let row = Appointment {
            status,
            admin_assigned: barber_id.is_some(),
            barber_id,
            scheduled_for: new_schedule,
            id: current.id,
            client_name: current.client_name,
            client_phone: current.client_phone,
            client_email: current.client_email,
            address: current.address,
            service: current.service,
            notes: current.notes,
            requested_at: current.requested_at,
            location: current.location,
        };
        let out = row.snapshot();
        self.appointments.set(i, row);
        Ok(out)
    }

    /// The repository's atomic conditional write: the row is updated only
    /// if its current assignment equals the expectation, all in one step
    /// of the serialized store. A caller that lost a concurrent race sees
    /// `Conflict` instead of silently overwriting. `assigned_by_admin`
    /// records who sets the new assignment, so a barber claim written
    /// through this path is not mislabeled as administrator-set.
    pub fn conditional_update_status(
        &mut self,
        id: u64,
        expected_barber: &Option<String>,
        new_status: Status,
        new_barber: Option<String>,
        new_scheduled_for: Option<String>,
        assigned_by_admin: bool,
    ) -> (r: ConditionalOutcome)
        requires
            old(self).wf(),
        ensures
            final(self).wf(),
            id >= old(self).appointments().len() ==> r is NotFound && *final(self) == *old(self),
            id < old(self).appointments().len() && !spec_same_assignment(
                old(self).appointments()[id as int].barber_id,
                *expected_barber,
            ) ==> r is Conflict && *final(self) == *old(self),
            id < old(self).appointments().len() && spec_same_assignment(
                old(self).appointments()[id as int].barber_id,
                *expected_barber,
            ) ==> {
                let prior = old(self).appointments()[id as int];
                r matches ConditionalOutcome::Success(a) && a == spec_conditional_step(
                    prior,
                    new_status,
                    new_barber,
                    a.scheduled_for,
                    assigned_by_admin,
                ) && a.scheduled_for@ == spec_schedule_after(
                    prior.scheduled_for@,
                    new_scheduled_for,
                ) && final(self).appointments() == old(self).appointments().update(id as int, a)
            },
    {
        if id >= self.appointments.len() as u64 {
            return ConditionalOutcome::NotFound;
        }
        let i = id as usize;
        let held = match (&self.appointments[i].barber_id, expected_barber) {
            (None, None) => true,
            (Some(cur), Some(exp)) => str_eq(cur.as_str(), exp.as_str()),
            _ => false,
        };
        if !held {
            return ConditionalOutcome::Conflict;
        }
        let current = self.appointments[i].snapshot();
        let reschedule = match &new_scheduled_for {
            Some(s) => !is_blank(s.as_str()),
            None => false,
        };
        let new_schedule: String = if reschedule {
            match &new_scheduled_for {
                Some(s) => trimmed(s.as_str()).to_owned(),
                None => vstd::pervasive::unreached(),
            }
        } else {
            current.scheduled_for
        };
        let row = Appointment {
            status: new_status,
            admin_assigned: assigned_by_admin && new_barber.is_some(),
            barber_id: new_barber,
            scheduled_for: new_schedule,
            id: current.id,
            client_name: current.client_name,
            client_phone: current.client_phone,
            client_email: current.client_email,
            address: current.address,
            service: current.service,
            notes: current.notes,
            requested_at: current.requested_at,
            location: current.location,
        };
        let out = row.snapshot();
        self.appointments.set(i, row);
        ConditionalOutcome::Success(out)
    }

    /// Every stored row, oldest first.
    pub fn list_all(&self) -> (r: Vec<Appointment>)
        ensures
            r@ == self.appointments(),
    {
        let n = self.appointments.len();
        let mut out: Vec<Appointment> = Vec::new();
        let mut i: usize = 0;
        while i < n
            invariant
                n == self.appointments().len(),
                i <= n,
                out@ == self.appointments().take(i as int),
            decreases n - i,
        {
            out.push(self.appointments[i].snapshot());
            proof {
                assert(out@ =~= self.appointments().take(i + 1));
            }
            i = i + 1;
        }
        proof {
            assert(out@ =~= self.appointments());
        }
        out
    }

    /// The rows holding one status, in stored order.
    pub fn list_with_status(&self, status: Status) -> (r: Vec<Appointment>)
        ensures
            r@ == spec_with_status(self.appointments(), status),
    {
        let n = self.appointments.len();
        let mut out: Vec<Appointment> = Vec::new();
        let mut i: usize = 0;
        while i < n
            invariant
                n == self.appointments().len(),
                i <= n,
                out@ == spec_with_status(self.appointments().take(i as int), status),
            decreases n - i,
        {
            proof {
                assert(self.appointments().take(i + 1).drop_last() =~= self.appointments().take(
                    i as int,
                ));
                assert(self.appointments().take(i + 1).last() == self.appointments()[i as int]);
            }
            if self.appointments[i].status == status {
                out.push(self.appointments[i].snapshot());
            }
            i = i + 1;
        }
        proof {
            assert(self.appointments().take(n as int) =~= self.appointments());
        }
        out
    }

    /// One barber's work queue: every row assigned to that barber, plus
    /// every unassigned row still pending, in stored order.
    pub fn list_barber_queue(&self, barber_id: &String) -> (r: Vec<Appointment>)
        ensures
            r@ == spec_barber_queue(self.appointments(), barber_id@),
    {
        let n = self.appointments.len();
        let mut out: Vec<Appointment> = Vec::new();
        let mut i: usize = 0;
        while i < n
            invariant
                n == self.appointments().len(),
                i <= n,
                out@ == spec_barber_queue(self.appointments().take(i as int), barber_id@),
            decreases n - i,
        {
            proof {
                assert(self.appointments().take(i + 1).drop_last() =~= self.appointments().take(
                    i as int,
                ));
                assert(self.appointments().take(i + 1).last() == self.appointments()[i as int]);
            }
            let keep = match &self.appointments[i].barber_id {
                Some(b) => str_eq(b.as_str(), barber_id.as_str()),
                None => self.appointments[i].status == Status::Pending,
            };
            if keep {
                out.push(self.appointments[i].snapshot());
            }
            i = i + 1;
        }
        proof {
            assert(self.appointments().take(n as int) =~= self.appointments());
        }
        out
    }

    /// The barber self-service transition, checked and applied as one
    /// atomic step. In request order: an unknown status spelling is
    /// `InvalidStatus`; an unknown identifier is `NotFound`; an appointment
    /// assigned to someone else — or already completed, which only an
    /// administrator may revisit — is `Forbidden`. Otherwise the step of
    /// [`spec_barber_step`] is committed: accepting claims the appointment
    /// for the acting barber, every other status keeps the assignment.
    pub fn barber_update(&mut self, id: u64, status: &str, actor_id: &String) -> (r: Result<
        Appointment,
        UpdateError,
    >)
        requires
            old(self).wf(),
        ensures
            final(self).wf(),
            spec_parse_status(status@) is None ==> r == Err::<Appointment, UpdateError>(
                UpdateError::InvalidStatus,
            ) && *final(self) == *old(self),
            spec_parse_status(status@) is Some && id >= old(self).appointments().len() ==> r
                == Err::<Appointment, UpdateError>(UpdateError::NotFound) && *final(self) == *old(
                self,
            ),
            spec_parse_status(status@) is Some && id < old(self).appointments().len()
                && !spec_barber_allowed(old(self).appointments()[id as int], actor_id@) ==> r
                == Err::<Appointment, UpdateError>(UpdateError::Forbidden) && *final(self) == *old(
                self,
            ),
            spec_parse_status(status@) is Some && id < old(self).appointments().len()
                && spec_barber_allowed(old(self).appointments()[id as int], actor_id@) ==> {
                let row = spec_barber_step(
                    old(self).appointments()[id as int],
                    spec_parse_status(status@)->0,
                    *actor_id,
                );
                r == Ok::<Appointment, UpdateError>(row) && final(self).appointments() == old(
                    self,
                ).appointments().update(id as int, row)
            },
    {
        let st = match parse_status(status) {
            Some(st) => st,
            None => {
                return Err(UpdateError::InvalidStatus);
            },
        };
        if id >= self.appointments.len() as u64 {
            return Err(UpdateError::NotFound);
        }
        let i = id as usize;
        let current = self.appointments[i].snapshot();
        let eligible = match &current.barber_id {
            None => true,
            Some(b) => str_eq(b.as_str(), actor_id.as_str()),
        };
        if !eligible || current.status == Status::Completed {
            return Err(UpdateError::Forbidden);
        }
        let assigned = if st == Status::Accepted {
            Some(actor_id.clone())
        } else {
            clone_opt_string(&current.barber_id)
        };
        let row = Appointment {
            status: st,
            barber_id: assigned,
            id: current.id,
            client_name: current.client_name,
            client_phone: current.client_phone,
            client_email: current.client_email,
            address: current.address,
            service: current.service,
            notes: current.notes,
            requested_at: current.requested_at,
            scheduled_for: current.scheduled_for,
            location: current.location,
            admin_assigned: current.admin_assigned,
        };
        let out = row.snapshot();
        self.appointments.set(i, row);
        Ok(out)
    }
}

} // verus!
