//! Small text builders: decimal rendering of identifiers and the
//! free-text lines recorded in the activity log.

use vstd::prelude::*;
use vstd::string::StringExecFns;

verus! {

/// The character of one decimal digit.
pub open spec fn spec_digit_char(d: nat) -> char {
    if d == 0 {
        '0'
    } else if d == 1 {
        '1'
    } else if d == 2 {
        '2'
    } else if d == 3 {
        '3'
    } else if d == 4 {
        '4'
    } else if d == 5 {
        '5'
    } else if d == 6 {
        '6'
    } else if d == 7 {
        '7'
    } else if d == 8 {
        '8'
    } else {
        '9'
    }
}

/// The decimal digits of a natural number, most significant first.
pub open spec fn spec_u64_chars(n: nat) -> Seq<char>
    decreases n,
{
    if n < 10 {
        seq![spec_digit_char(n)]
    } else {
        spec_u64_chars(n / 10).push(spec_digit_char(n % 10))
    }
}

/// One decimal digit as a string slice.
fn digit_str(d: u64) -> (r: &'static str)
    requires
        d < 10,
    ensures
        r@ == seq![spec_digit_char(d as nat)],
{
    let r = if d == 0 {
        "0"
    } else if d == 1 {
        "1"
    } else if d == 2 {
        "2"
    } else if d == 3 {
        "3"
    } else if d == 4 {
        "4"
    } else if d == 5 {
        "5"
    } else if d == 6 {
        "6"
    } else if d == 7 {
        "7"
    } else if d == 8 {
        "8"
    } else {
        "9"
    };
    proof {
        reveal_strlit("0");
        reveal_strlit("1");
        reveal_strlit("2");
        reveal_strlit("3");
        reveal_strlit("4");
        reveal_strlit("5");
        reveal_strlit("6");
        reveal_strlit("7");
        reveal_strlit("8");
        reveal_strlit("9");
        assert(r@ =~= seq![spec_digit_char(d as nat)]);
    }
    r
}

/// Appends the decimal digits of a number to a string.
fn push_u64_chars(out: &mut String, n: u64)
    ensures
        final(out)@ == old(out)@ + spec_u64_chars(n as nat),
    decreases n,
{
    if n < 10 {
        out.append(digit_str(n));
        proof {
            assert(out@ =~= old(out)@ + spec_u64_chars(n as nat));
        }
    } else {
        push_u64_chars(out, n / 10);
        out.append(digit_str(n % 10));
        proof {
            assert(out@ =~= old(out)@ + spec_u64_chars(n as nat));
        }
    }
}

/// Renders a number in decimal.
pub fn u64_to_string(n: u64) -> (r: String)
    ensures
        r@ == spec_u64_chars(n as nat),
{
    let mut out = String::new();
    push_u64_chars(&mut out, n);
    proof {
        assert(out@ =~= spec_u64_chars(n as nat));
    }
    out
}

/// The activity line recorded when a booking is created.
pub open spec fn spec_booking_message(name: Seq<char>) -> Seq<char> {
    "New appointment requested for "@ + name + "."@
}

/// Builds the activity line for a new booking.
pub fn booking_message(name: &str) -> (r: String)
    ensures
        r@ == spec_booking_message(name@),
{
    let mut out = String::new();
    out.append("New appointment requested for ");
    out.append(name);
    out.append(".");
    proof {
        assert(out@ =~= spec_booking_message(name@));
    }
    out
}

/// The activity line recorded when a barber changes a status.
pub open spec fn spec_barber_update_message(
    display_name: Seq<char>,
    id: u64,
    status: Seq<char>,
) -> Seq<char> {
    display_name + " updated appointment "@ + spec_u64_chars(id as nat) + " to "@ + status + "."@
}

/// Builds the activity line for a barber status change.
pub fn barber_update_message(display_name: &str, id: u64, status: &str) -> (r: String)
    ensures
        r@ == spec_barber_update_message(display_name@, id, status@),
{
    let mut out = String::new();
    out.append(display_name);
    out.append(" updated appointment ");
    push_u64_chars(&mut out, id);
    out.append(" to ");
    out.append(status);
    out.append(".");
    proof {
        assert(out@ =~= spec_barber_update_message(display_name@, id, status@));
    }
    out
}

/// The activity line recorded when an administrator updates an
/// appointment.
pub open spec fn spec_admin_update_message(display_name: Seq<char>, id: u64) -> Seq<char> {
    display_name + " updated appointment "@ + spec_u64_chars(id as nat) + "."@
}

/// Builds the activity line for an administrator update.
pub fn admin_update_message(display_name: &str, id: u64) -> (r: String)
    ensures
        r@ == spec_admin_update_message(display_name@, id),
{
    let mut out = String::new();
    out.append(display_name);
    out.append(" updated appointment ");
    push_u64_chars(&mut out, id);
    out.append(".");
    proof {
        assert(out@ =~= spec_admin_update_message(display_name@, id));
    }
    out
}

/// The body of the push notification sent after a status change.
pub open spec fn spec_status_change_body(status: Seq<char>) -> Seq<char> {
    "Status changed to "@ + status + "."@
}

/// Builds the push-notification body for a status change.
pub fn status_change_body(status: &str) -> (r: String)
    ensures
        r@ == spec_status_change_body(status@),
{
    let mut out = String::new();
    out.append("Status changed to ");
    out.append(status);
    out.append(".");
    proof {
        assert(out@ =~= spec_status_change_body(status@));
    }
    out
}

/// The relative status page of an appointment, offered as the target link
/// of each push notification.
pub open spec fn spec_status_url(id: u64) -> Seq<char> {
    "/status/"@ + spec_u64_chars(id as nat)
}

/// Builds the status-page link of an appointment.
pub fn status_url(id: u64) -> (r: String)
    ensures
        r@ == spec_status_url(id),
{
    let mut out = String::new();
    out.append("/status/");
    push_u64_chars(&mut out, id);
    proof {
        assert(out@ =~= spec_status_url(id));
    }
    out
}

} // verus!
