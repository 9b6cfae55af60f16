//! Change events and the live-stream gateway's per-viewer filtering: the
//! privileged feed forwards full events, the public per-appointment feed
//! keeps only events for one appointment and strips every contact field.

use vstd::prelude::*;

use crate::model::{clone_opt_string, Appointment, GeoPoint, Status};

verus! {

/// What kind of committed change an event describes.
#[derive(Clone, Copy, Debug, PartialEq, Eq, Structural)]
pub enum EventKind {
    Created,
    Updated,
}

impl EventKind {
    /// The wire spelling of this kind.
    pub open spec fn spec_label(self) -> Seq<char> {
        match self {
            EventKind::Created => "appointment_created"@,
            EventKind::Updated => "appointment_updated"@,
        }
    }

    /// Returns the wire spelling of this kind.
    pub fn label(self) -> (r: &'static str)
        ensures
            r@ == self.spec_label(),
    {
        match self {
            EventKind::Created => "appointment_created",
            EventKind::Updated => "appointment_updated",
        }
    }
}

/// An immutable snapshot of an appointment's fields at commit time,
/// published once over the event bus and never replayed.
#[derive(Clone, Debug)]
pub struct ChangeEvent {
    pub kind: EventKind,
    pub appointment_id: u64,
    pub status: Status,
    pub client_name: String,
    pub client_phone: String,
    pub client_email: Option<String>,
    pub address: String,
    pub service: String,
    pub notes: Option<String>,
    pub scheduled_for: String,
    pub barber_id: Option<String>,
    pub barber_name: Option<String>,
    pub location: Option<GeoPoint>,
}

/// The event a committed appointment produces: a field-for-field snapshot,
/// with the barber's display name as resolved at commit time (or `None`
/// where the directory could not supply it).
pub open spec fn spec_event_of(
    kind: EventKind,
    a: Appointment,
    barber_name: Option<String>,
) -> ChangeEvent {
    ChangeEvent {
        kind,
        appointment_id: a.id,
        status: a.status,
        client_name: a.client_name,
        client_phone: a.client_phone,
        client_email: a.client_email,
        address: a.address,
        service: a.service,
        notes: a.notes,
        scheduled_for: a.scheduled_for,
        barber_id: a.barber_id,
        barber_name,
        location: a.location,
    }
}

impl ChangeEvent {
    /// Builds the snapshot event for a committed appointment.
    pub fn from_appointment(kind: EventKind, a: &Appointment, barber_name: Option<String>) -> (r:
        ChangeEvent)
        ensures
            r == spec_event_of(kind, *a, barber_name),
    {
        ChangeEvent {
            kind,
            appointment_id: a.id,
            status: a.status,
            client_name: a.client_name.clone(),
            client_phone: a.client_phone.clone(),
            client_email: clone_opt_string(&a.client_email),
            address: a.address.clone(),
            service: a.service.clone(),
            notes: clone_opt_string(&a.notes),
            scheduled_for: a.scheduled_for.clone(),
            barber_id: clone_opt_string(&a.barber_id),
            barber_name,
            location: a.location,
        }
    }

    /// An exact copy of this event.
    pub fn snapshot(&self) -> (r: ChangeEvent)
        ensures
            r == *self,
    {
        ChangeEvent {
            kind: self.kind,
            appointment_id: self.appointment_id,
            status: self.status,
            client_name: self.client_name.clone(),
            client_phone: self.client_phone.clone(),
            client_email: clone_opt_string(&self.client_email),
            address: self.address.clone(),
            service: self.service.clone(),
            notes: clone_opt_string(&self.notes),
            scheduled_for: self.scheduled_for.clone(),
            barber_id: clone_opt_string(&self.barber_id),
            barber_name: clone_opt_string(&self.barber_name),
            location: self.location,
        }
    }
}

/// What the public per-appointment feed exposes. By construction the type
/// holds no contact or location field: only the appointment identifier,
/// status, service, schedule and barber display name ever reach an
/// anonymous viewer.
#[derive(Clone, Debug)]
pub struct PublicStatusEvent {
    pub appointment_id: u64,
    pub status: Status,
    pub service: String,
    pub scheduled_for: String,
    pub barber_name: Option<String>,
}

/// The public projection of a full change event.
pub open spec fn spec_public_view(e: ChangeEvent) -> PublicStatusEvent {
    PublicStatusEvent {
        appointment_id: e.appointment_id,
        status: e.status,
        service: e.service,
        scheduled_for: e.scheduled_for,
        barber_name: e.barber_name,
    }
}

/// Filters one event for the public feed of `target`: `Some` exactly when
/// the event concerns that appointment, and then only the public fields.
pub fn filter_public(e: &ChangeEvent, target: u64) -> (r: Option<PublicStatusEvent>)
    ensures
        e.appointment_id == target ==> r == Some(spec_public_view(*e)),
        e.appointment_id != target ==> r is None,
{
    if e.appointment_id == target {
        Some(
            PublicStatusEvent {
                appointment_id: e.appointment_id,
                status: e.status,
                service: e.service.clone(),
                scheduled_for: e.scheduled_for.clone(),
                barber_name: clone_opt_string(&e.barber_name),
            },
        )
    } else {
        None
    }
}

} // verus!
