//! Data model of the appointment lifecycle: statuses, appointments, booking
//! details, and the error taxonomy shared by the whole core.

use vstd::prelude::*;
use vstd::string::StrSliceExecFns;

verus! {

/// Lifecycle status of an appointment. Every appointment starts out
/// `Pending`; the admin path may move it anywhere, the barber path is
/// restricted by the claim rules.
#[derive(Clone, Copy, Debug, PartialEq, Eq, Structural)]
pub enum Status {
    Pending,
    Accepted,
    Declined,
    Completed,
}

impl Status {
    /// The wire/storage spelling of each status.
    pub open spec fn spec_label(self) -> Seq<char> {
        match self {
            Status::Pending => "pending"@,
            Status::Accepted => "accepted"@,
            Status::Declined => "declined"@,
            Status::Completed => "completed"@,
        }
    }

    /// Returns the storage spelling of this status.
    pub fn label(self) -> (r: &'static str)
        ensures
            r@ == self.spec_label(),
    {
        match self {
            Status::Pending => "pending",
            Status::Accepted => "accepted",
            Status::Declined => "declined",
            Status::Completed => "completed",
        }
    }
}

/// The status named by a spelling, if it is one of the four lifecycle
/// statuses.
pub open spec fn spec_parse_status(s: Seq<char>) -> Option<Status> {
    if s == "pending"@ {
        Some(Status::Pending)
    } else if s == "accepted"@ {
        Some(Status::Accepted)
    } else if s == "declined"@ {
        Some(Status::Declined)
    } else if s == "completed"@ {
        Some(Status::Completed)
    } else {
        None
    }
}

/// Compares two string slices by their character content.
pub fn str_eq(a: &str, b: &str) -> (r: bool)
    ensures
        r == (a@ == b@),
{
    let x: String = a.to_owned();
    let y: String = b.to_owned();
    x == y
}

/// The whitespace characters that field validation and trimming ignore:
/// the Unicode White_Space set, the same set `str::trim` removes.
pub open spec fn is_space_char(c: char) -> bool {
    let u = c as u32;
    u == 0x20 || (0x09 <= u && u <= 0x0D) || u == 0x85 || u == 0xA0 || u == 0x1680 || (0x2000 <= u
        && u <= 0x200A) || u == 0x2028 || u == 0x2029 || u == 0x202F || u == 0x205F || u == 0x3000
}

/// Returns whether a character is whitespace.
pub fn is_space(c: char) -> (r: bool)
    ensures
        r == is_space_char(c),
{
    let u = c as u32;
    u == 0x20 || (0x09 <= u && u <= 0x0D) || u == 0x85 || u == 0xA0 || u == 0x1680 || (0x2000 <= u
        && u <= 0x200A) || u == 0x2028 || u == 0x2029 || u == 0x202F || u == 0x205F || u == 0x3000
}

/// A string is blank when it holds nothing but whitespace.
pub open spec fn spec_blank(s: Seq<char>) -> bool {
    forall|i: int| 0 <= i < s.len() ==> is_space_char(#[trigger] s[i])
}

/// Returns whether the string is empty or all whitespace.
pub fn is_blank(s: &str) -> (r: bool)
    ensures
        r == spec_blank(s@),
{
    let n = s.unicode_len();
    let mut i: usize = 0;
    while i < n
        invariant
            n == s@.len(),
            i <= n,
            forall|j: int| 0 <= j < i ==> is_space_char(#[trigger] s@[j]),
        decreases n - i,
    {
        if !is_space(s.get_char(i)) {
            return false;
        }
        i = i + 1;
    }
    true
}

/// A string with its leading whitespace removed.
pub open spec fn spec_trim_front(s: Seq<char>) -> Seq<char>
    decreases s.len(),
{
    if s.len() == 0 {
        s
    } else if is_space_char(s[0]) {
        spec_trim_front(s.drop_first())
    } else {
        s
    }
}

/// A string with its trailing whitespace removed.
pub open spec fn spec_trim_back(s: Seq<char>) -> Seq<char>
    decreases s.len(),
{
    if s.len() == 0 {
        s
    } else if is_space_char(s.last()) {
        spec_trim_back(s.drop_last())
    } else {
        s
    }
}

/// A string with whitespace removed from both ends.
pub open spec fn spec_trim(s: Seq<char>) -> Seq<char> {
    spec_trim_back(spec_trim_front(s))
}

proof fn lemma_trim_front_skip(s: Seq<char>, i: int)
    requires
        0 <= i <= s.len(),
        forall|k: int| 0 <= k < i ==> is_space_char(#[trigger] s[k]),
        i < s.len() ==> !is_space_char(s[i]),
    ensures
        spec_trim_front(s) == s.skip(i),
    decreases i,
{
    if i > 0 {
        assert(is_space_char(s[0]));
        assert(s.drop_first() =~= s.skip(1));
        lemma_trim_front_skip(s.drop_first(), i - 1);
        assert(s.drop_first().skip(i - 1) =~= s.skip(i));
    } else {
        assert(s.skip(0) =~= s);
    }
}

proof fn lemma_trim_back_take(s: Seq<char>, j: int)
    requires
        0 <= j <= s.len(),
        forall|k: int| j <= k < s.len() ==> is_space_char(#[trigger] s[k]),
        j > 0 ==> !is_space_char(s[j - 1]),
    ensures
        spec_trim_back(s) == s.take(j),
    decreases s.len(),
{
    if j == s.len() {
        assert(s.take(j) =~= s);
    } else {
        assert(is_space_char(s.last()));
        lemma_trim_back_take(s.drop_last(), j);
        assert(s.drop_last().take(j) =~= s.take(j));
    }
}

/// Returns the string with whitespace removed from both ends.
pub fn trimmed(s: &str) -> (r: &str)
    ensures
        r@ == spec_trim(s@),
{
    let n = s.unicode_len();
    let mut from: usize = 0;
    let mut scanning = true;
    while scanning
        invariant
            n == s@.len(),
            from <= n,
            forall|k: int| 0 <= k < from ==> is_space_char(#[trigger] s@[k]),
            !scanning ==> (from == n || !is_space_char(s@[from as int])),
        decreases n - from + (if scanning {
            1int
        } else {
            0int
        }),
    {
        if from < n {
            if is_space(s.get_char(from)) {
                from = from + 1;
            } else {
                scanning = false;
            }
        } else {
            scanning = false;
        }
    }
    proof {
        lemma_trim_front_skip(s@, from as int);
    }
    let mut to: usize = n;
    scanning = true;
    while scanning
        invariant
            n == s@.len(),
            from <= to <= n,
            forall|k: int| 0 <= k < from ==> is_space_char(#[trigger] s@[k]),
            from < n ==> !is_space_char(s@[from as int]),
            forall|k: int| to <= k < n ==> is_space_char(#[trigger] s@[k]),
            !scanning ==> (to == from || !is_space_char(s@[to - 1])),
        decreases to + (if scanning {
            1int
        } else {
            0int
        }),
    {
        if to > from {
            if is_space(s.get_char(to - 1)) {
                to = to - 1;
            } else {
                scanning = false;
            }
        } else {
            scanning = false;
        }
    }
    proof {
        assert(s@.skip(from as int).len() == n - from);
        if to > from {
            assert(!is_space_char(s@[to - 1]));
        }
        assert forall|k: int| to - from <= k < n - from implies is_space_char(
            #[trigger] s@.skip(from as int)[k],
        ) by {
            assert(s@.skip(from as int)[k] == s@[k + from]);
        }
        if to - from > 0 {
            assert(s@.skip(from as int)[to - from - 1] == s@[to - 1]);
        }
        lemma_trim_back_take(s@.skip(from as int), to - from);
        assert(s@.skip(from as int).take(to - from) =~= s@.subrange(from as int, to as int));
    }
    s.substring_char(from, to)
}

/// Normalizes an optional free-form field: absent or blank becomes
/// `None`, anything else is kept trimmed. Callers use this before
/// storing an assignment handed in by a form.
pub fn normalize_assignment(s: Option<String>) -> (r: Option<String>)
    ensures
        (match s {
            None => r is None,
            Some(v) => if spec_blank(v@) {
                r is None
            } else {
                r matches Some(t) && t@ == spec_trim(v@)
            },
        }),
{
    match s {
        None => None,
        Some(v) => {
            if is_blank(v.as_str()) {
                None
            } else {
                Some(trimmed(v.as_str()).to_owned())
            }
        },
    }
}

/// Parses a status spelling; `None` exactly when the input is not one of
/// the four lifecycle statuses.
pub fn parse_status(s: &str) -> (r: Option<Status>)
    ensures
        r == spec_parse_status(s@),
{
    if str_eq(s, "pending") {
        Some(Status::Pending)
    } else if str_eq(s, "accepted") {
        Some(Status::Accepted)
    } else if str_eq(s, "declined") {
        Some(Status::Declined)
    } else if str_eq(s, "completed") {
        Some(Status::Completed)
    } else {
        None
    }
}

/// An optional service location, carried as microdegrees so that the core
/// works on plain integers; callers convert to and from their own
/// floating-point coordinates at the boundary.
#[derive(Clone, Copy, Debug, PartialEq, Eq, Structural)]
pub struct GeoPoint {
    pub lat_microdeg: i64,
    pub lon_microdeg: i64,
}

/// An authenticated identity handed in by the authentication collaborator;
/// the core never checks credentials itself.
#[derive(Clone, Debug)]
pub struct AuthUser {
    pub id: String,
    pub display_name: String,
    pub role: String,
}

/// What a client submits to book an appointment.
#[derive(Clone, Debug)]
pub struct BookingDetails {
    pub client_name: String,
    pub client_phone: String,
    pub client_email: Option<String>,
    pub address: String,
    pub service: String,
    pub notes: Option<String>,
    pub scheduled_for: String,
    pub location: Option<GeoPoint>,
}

/// One user-correctable problem with a booking request.
#[derive(Clone, Copy, Debug, PartialEq, Eq, Structural)]
pub enum ValidationIssue {
    NameRequired,
    PhoneRequired,
    AddressRequired,
    ServiceRequired,
    ScheduleRequired,
}

impl ValidationIssue {
    /// The message shown for each issue.
    pub open spec fn spec_message(self) -> Seq<char> {
        match self {
            ValidationIssue::NameRequired => "Full name is required."@,
            ValidationIssue::PhoneRequired => "Phone number is required."@,
            ValidationIssue::AddressRequired => "Service address is required."@,
            ValidationIssue::ServiceRequired => "Please select a service."@,
            ValidationIssue::ScheduleRequired => "Please pick a date and time."@,
        }
    }

    /// Returns the message shown for this issue.
    pub fn message(self) -> (r: &'static str)
        ensures
            r@ == self.spec_message(),
    {
        match self {
            ValidationIssue::NameRequired => "Full name is required.",
            ValidationIssue::PhoneRequired => "Phone number is required.",
            ValidationIssue::AddressRequired => "Service address is required.",
            ValidationIssue::ServiceRequired => "Please select a service.",
            ValidationIssue::ScheduleRequired => "Please pick a date and time.",
        }
    }
}

/// Every problem with a booking request, in a fixed order; all checks run,
/// none short-circuits.
pub open spec fn spec_booking_issues(d: BookingDetails) -> Seq<ValidationIssue> {
    let s = Seq::<ValidationIssue>::empty();
    let s = if spec_blank(d.client_name@) {
        s.push(ValidationIssue::NameRequired)
    } else {
        s
    };
    let s = if spec_blank(d.client_phone@) {
        s.push(ValidationIssue::PhoneRequired)
    } else {
        s
    };
    let s = if spec_blank(d.address@) {
        s.push(ValidationIssue::AddressRequired)
    } else {
        s
    };
    let s = if spec_blank(d.service@) {
        s.push(ValidationIssue::ServiceRequired)
    } else {
        s
    };
    if spec_blank(d.scheduled_for@) {
        s.push(ValidationIssue::ScheduleRequired)
    } else {
        s
    }
}

/// Collects every validation problem of a booking request. The result is
/// empty exactly when all required fields hold something.
pub fn validate_booking(d: &BookingDetails) -> (r: Vec<ValidationIssue>)
    ensures
        r@ == spec_booking_issues(*d),
{
    let mut issues: Vec<ValidationIssue> = Vec::new();
    if is_blank(d.client_name.as_str()) {
        issues.push(ValidationIssue::NameRequired);
    }
    if is_blank(d.client_phone.as_str()) {
        issues.push(ValidationIssue::PhoneRequired);
    }
    if is_blank(d.address.as_str()) {
        issues.push(ValidationIssue::AddressRequired);
    }
    if is_blank(d.service.as_str()) {
        issues.push(ValidationIssue::ServiceRequired);
    }
    if is_blank(d.scheduled_for.as_str()) {
        issues.push(ValidationIssue::ScheduleRequired);
    }
    assert(issues@ =~= spec_booking_issues(*d));
    issues
}

/// A stored appointment row. `admin_assigned` records that the current
/// barber assignment was set through the administrator path rather than
/// through a barber's own claim.
#[derive(Clone, Debug)]
pub struct Appointment {
    pub id: u64,
    pub client_name: String,
    pub client_phone: String,
    pub client_email: Option<String>,
    pub address: String,
    pub service: String,
    pub notes: Option<String>,
    pub requested_at: String,
    pub scheduled_for: String,
    pub status: Status,
    pub barber_id: Option<String>,
    pub location: Option<GeoPoint>,
    pub admin_assigned: bool,
}

impl Appointment {
    /// An exact copy of this appointment.
    pub fn snapshot(&self) -> (r: Appointment)
        ensures
            r == *self,
    {
        Appointment {
            id: self.id,
            client_name: self.client_name.clone(),
            client_phone: self.client_phone.clone(),
            client_email: clone_opt_string(&self.client_email),
            address: self.address.clone(),
            service: self.service.clone(),
            notes: clone_opt_string(&self.notes),
            requested_at: self.requested_at.clone(),
            scheduled_for: self.scheduled_for.clone(),
            status: self.status,
            barber_id: clone_opt_string(&self.barber_id),
            location: self.location,
            admin_assigned: self.admin_assigned,
        }
    }
}

/// An exact copy of an optional string.
pub fn clone_opt_string(s: &Option<String>) -> (r: Option<String>)
    ensures
        r == *s,
{
    match s {
        Some(v) => Some(v.clone()),
        None => None,
    }
}

/// The appointment a fresh booking persists: status `Pending`, no barber.
pub open spec fn spec_new_appointment(id: u64, d: BookingDetails, now: String) -> Appointment {
    Appointment {
        id,
        client_name: d.client_name,
        client_phone: d.client_phone,
        client_email: d.client_email,
        address: d.address,
        service: d.service,
        notes: d.notes,
        requested_at: now,
        scheduled_for: d.scheduled_for,
        status: Status::Pending,
        barber_id: None,
        location: d.location,
        admin_assigned: false,
    }
}

/// The schedule a row holds after an update: a non-blank replacement is
/// stored trimmed, a blank or absent one leaves the stored schedule
/// alone.
pub open spec fn spec_schedule_after(current: Seq<char>, replacement: Option<String>) -> Seq<
    char,
> {
    match replacement {
        Some(s) => if spec_blank(s@) {
            current
        } else {
            spec_trim(s@)
        },
        None => current,
    }
}

/// The administrator transition: any status is reachable, the assignment
/// is rewritten freely, and the schedule becomes `new_schedule` — whose
/// content the callers' contracts pin with [`spec_schedule_after`].
pub open spec fn spec_admin_step(
    a: Appointment,
    status: Status,
    barber_id: Option<String>,
    new_schedule: String,
) -> Appointment {
    Appointment {
        status,
        barber_id,
        admin_assigned: barber_id is Some,
        scheduled_for: new_schedule,
        ..a
    }
}

/// A conditional write's step: like the administrator step, but the
/// caller says whether this assignment counts as administrator-set, so a
/// barber claim written through the conditional path is not mislabeled.
pub open spec fn spec_conditional_step(
    a: Appointment,
    status: Status,
    barber_id: Option<String>,
    new_schedule: String,
    assigned_by_admin: bool,
) -> Appointment {
    Appointment {
        status,
        admin_assigned: assigned_by_admin && barber_id is Some,
        barber_id,
        scheduled_for: new_schedule,
        ..a
    }
}

/// Whether a barber may touch this appointment: it is unassigned, or
/// already assigned to that barber.
pub open spec fn spec_barber_eligible(a: Appointment, actor_id: Seq<char>) -> bool {
    match a.barber_id {
        None => true,
        Some(b) => b@ == actor_id,
    }
}

/// Whether a barber may commit a transition at all: eligible by
/// assignment, and the appointment is not completed — once completed,
/// only an administrator may move it again.
pub open spec fn spec_barber_allowed(a: Appointment, actor_id: Seq<char>) -> bool {
    spec_barber_eligible(a, actor_id) && a.status != Status::Completed
}

/// The barber transition: accepting claims the appointment for the acting
/// barber; every other status change keeps the existing assignment.
pub open spec fn spec_barber_step(a: Appointment, status: Status, actor_id: String) -> Appointment {
    Appointment {
        status,
        barber_id: if status == Status::Accepted {
            Some(actor_id)
        } else {
            a.barber_id
        },
        ..a
    }
}

/// The assignment invariant of a stored appointment: a barber reference
/// is held only while the appointment is accepted or completed, or
/// because an administrator set the assignment explicitly.
pub open spec fn spec_assignment_inv(a: Appointment) -> bool {
    a.barber_id is Some ==> (a.status == Status::Accepted || a.status == Status::Completed
        || a.admin_assigned)
}

/// Why a transition request was refused.
#[derive(Clone, Copy, Debug, PartialEq, Eq, Structural)]
pub enum UpdateError {
    /// The appointment does not exist.
    NotFound,
    /// The acting barber has no rights over this appointment.
    Forbidden,
    /// The requested status is not one of the lifecycle statuses.
    InvalidStatus,
}

/// A barber of the directory, used to show display names beside
/// appointments and events.
#[derive(Clone, Debug)]
pub struct Barber {
    pub id: String,
    pub display_name: String,
}

/// One line of the activity log.
#[derive(Clone, Debug)]
pub struct ActivityRow {
    pub message: String,
    pub created_at: String,
}

} // verus!
