//! Wire encoding of streamed events and notification payloads: a JSON
//! object per event, wrapped in text/event-stream framing. Encoding is
//! byte-level over each string's UTF-8 bytes; only the quote, the
//! backslash and control bytes are escaped, which never splits a
//! multi-byte character because those bytes are all ASCII.

use vstd::prelude::*;
use vstd::string::StringSliceAdditionalSpecFns;
use vstd::utf8::encode_utf8;

use crate::gateway::{ChangeEvent, PublicStatusEvent};
use crate::model::GeoPoint;

verus! {

/// The ASCII code of a lower-case hexadecimal digit.
pub open spec fn spec_hex_digit(d: nat) -> u8 {
    if d < 10 {
        (0x30 + d) as u8
    } else {
        (0x61 + (d - 10)) as u8
    }
}

/// How one byte of a JSON string is written: quote and backslash get a
/// backslash, control bytes become a `\u00..` sequence, everything else
/// passes through.
pub open spec fn spec_escape_byte(b: u8) -> Seq<u8> {
    if b == 0x22 {
        seq![0x5cu8, 0x22u8]
    } else if b == 0x5c {
        seq![0x5cu8, 0x5cu8]
    } else if b < 0x20 {
        seq![0x5cu8, 0x75u8, 0x30u8, 0x30u8, spec_hex_digit((b / 16) as nat), spec_hex_digit(
            (b % 16) as nat,
        )]
    } else {
        seq![b]
    }
}

/// A byte sequence with every byte escaped for a JSON string.
pub open spec fn spec_escape(s: Seq<u8>) -> Seq<u8>
    decreases s.len(),
{
    if s.len() == 0 {
        Seq::empty()
    } else {
        spec_escape(s.drop_last()) + spec_escape_byte(s.last())
    }
}

/// A JSON string: quoted, escaped UTF-8 bytes of the characters.
pub open spec fn spec_json_str(s: Seq<char>) -> Seq<u8> {
    seq![0x22u8] + spec_escape(encode_utf8(s)) + seq![0x22u8]
}

/// A JSON string or `null`.
pub open spec fn spec_json_opt_str(s: Option<String>) -> Seq<u8> {
    match s {
        Some(v) => spec_json_str(v@),
        None => "null".spec_bytes(),
    }
}

/// The decimal digits of a natural number, most significant first.
pub open spec fn spec_dec_digits(n: nat) -> Seq<u8>
    decreases n,
{
    if n < 10 {
        seq![(0x30 + n) as u8]
    } else {
        spec_dec_digits(n / 10).push((0x30 + n % 10) as u8)
    }
}

/// A decimal integer with a leading minus sign when negative.
pub open spec fn spec_dec_int(n: int) -> Seq<u8> {
    if n < 0 {
        seq![0x2du8] + spec_dec_digits((-n) as nat)
    } else {
        spec_dec_digits(n as nat)
    }
}

/// A JSON number or `null`, for one coordinate of an optional location.
pub open spec fn spec_json_opt_lat(p: Option<GeoPoint>) -> Seq<u8> {
    match p {
        Some(g) => spec_dec_int(g.lat_microdeg as int),
        None => "null".spec_bytes(),
    }
}

/// A JSON number or `null`, for the other coordinate.
pub open spec fn spec_json_opt_lon(p: Option<GeoPoint>) -> Seq<u8> {
    match p {
        Some(g) => spec_dec_int(g.lon_microdeg as int),
        None => "null".spec_bytes(),
    }
}

/// Appends the UTF-8 bytes of a string slice.
fn append_lit(out: &mut Vec<u8>, s: &str)
    ensures
        final(out)@ == old(out)@ + s.spec_bytes(),
{
    let bs = s.as_bytes();
    let n = bs.len();
    let mut j: usize = 0;
    while j < n
        invariant
            n == bs@.len(),
            j <= n,
            bs@ == s.spec_bytes(),
            out@ == old(out)@ + bs@.take(j as int),
        decreases n - j,
    {
        out.push(bs[j]);
        proof {
            assert(out@ =~= old(out)@ + bs@.take(j + 1));
        }
        j = j + 1;
    }
    proof {
        assert(out@ =~= old(out)@ + s.spec_bytes());
    }
}

/// Appends one escaped byte of a JSON string.
fn append_escaped_byte(out: &mut Vec<u8>, b: u8)
    ensures
        final(out)@ == old(out)@ + spec_escape_byte(b),
{
    if b == 0x22 {
        out.push(0x5c);
        out.push(0x22);
    } else if b == 0x5c {
        out.push(0x5c);
        out.push(0x5c);
    } else if b < 0x20 {
        out.push(0x5c);
        out.push(0x75);
        out.push(0x30);
        out.push(0x30);
        let hi = b / 16;
        let lo = b % 16;
        out.push(if hi < 10 {
            0x30 + hi
        } else {
            0x61 + (hi - 10)
        });
        out.push(if lo < 10 {
            0x30 + lo
        } else {
            0x61 + (lo - 10)
        });
    } else {
        out.push(b);
    }
    proof {
        assert(out@ =~= old(out)@ + spec_escape_byte(b));
    }
}

/// Appends a full JSON string: quote, escaped content, quote.
fn append_json_str(out: &mut Vec<u8>, s: &str)
    ensures
        final(out)@ == old(out)@ + spec_json_str(s@),
{
    out.push(0x22);
    let bs = s.as_bytes();
    let n = bs.len();
    let mut j: usize = 0;
    while j < n
        invariant
            n == bs@.len(),
            j <= n,
            bs@ == s.spec_bytes(),
            out@ == old(out)@ + seq![0x22u8] + spec_escape(bs@.take(j as int)),
        decreases n - j,
    {
        append_escaped_byte(out, bs[j]);
        proof {
            assert(bs@.take(j + 1).drop_last() =~= bs@.take(j as int));
            assert(bs@.take(j + 1).last() == bs@[j as int]);
            assert(out@ =~= old(out)@ + seq![0x22u8] + spec_escape(bs@.take(j + 1)));
        }
        j = j + 1;
    }
    out.push(0x22);
    proof {
        assert(bs@.take(n as int) =~= bs@);
        assert(out@ =~= old(out)@ + spec_json_str(s@));
    }
}

/// Appends a JSON string or `null`.
fn append_json_opt_str(out: &mut Vec<u8>, s: &Option<String>)
    ensures
        final(out)@ == old(out)@ + spec_json_opt_str(*s),
{
    match s {
        Some(v) => append_json_str(out, v.as_str()),
        None => append_lit(out, "null"),
    }
}

/// Appends the decimal digits of a natural number.
fn append_dec_u64(out: &mut Vec<u8>, n: u64)
    ensures
        final(out)@ == old(out)@ + spec_dec_digits(n as nat),
    decreases n,
{
    if n < 10 {
        out.push(0x30 + (n as u8));
        proof {
            assert(out@ =~= old(out)@ + spec_dec_digits(n as nat));
        }
    } else {
        append_dec_u64(out, n / 10);
        out.push(0x30 + ((n % 10) as u8));
        proof {
            assert(out@ =~= old(out)@ + spec_dec_digits(n as nat));
        }
    }
}

/// Appends a decimal integer, minus sign first when negative.
fn append_dec_i64(out: &mut Vec<u8>, n: i64)
    ensures
        final(out)@ == old(out)@ + spec_dec_int(n as int),
{
    if n < 0 {
        out.push(0x2d);
        let m: u64 = ((-(n + 1)) as u64) + 1;
        proof {
            assert(m as nat == (-(n as int)) as nat);
        }
        append_dec_u64(out, m);
        proof {
            assert(out@ =~= old(out)@ + spec_dec_int(n as int));
        }
    } else {
        append_dec_u64(out, n as u64);
    }
}

/// The full JSON payload of the privileged feed: every snapshot field,
/// contact and location included.
pub open spec fn spec_event_json(e: ChangeEvent) -> Seq<u8> {
    "{\"kind\":\"".spec_bytes() + encode_utf8(e.kind.spec_label()) + "\",\"appointment_id\":".spec_bytes()
        + spec_dec_digits(e.appointment_id as nat) + ",\"status\":\"".spec_bytes() + encode_utf8(
        e.status.spec_label(),
    ) + "\",\"client_name\":".spec_bytes() + spec_json_str(e.client_name@)
        + ",\"client_phone\":".spec_bytes() + spec_json_str(e.client_phone@)
        + ",\"client_email\":".spec_bytes() + spec_json_opt_str(e.client_email)
        + ",\"address\":".spec_bytes() + spec_json_str(e.address@) + ",\"service\":".spec_bytes()
        + spec_json_str(e.service@) + ",\"notes\":".spec_bytes() + spec_json_opt_str(e.notes)
        + ",\"scheduled_for\":".spec_bytes() + spec_json_str(e.scheduled_for@)
        + ",\"barber_name\":".spec_bytes() + spec_json_opt_str(e.barber_name)
        + ",\"barber_id\":".spec_bytes() + spec_json_opt_str(e.barber_id)
        + ",\"latitude_microdeg\":".spec_bytes() + spec_json_opt_lat(e.location)
        + ",\"longitude_microdeg\":".spec_bytes() + spec_json_opt_lon(e.location)
        + "}".spec_bytes()
}

/// The JSON payload of the public per-appointment feed: identifier,
/// status, service, schedule and barber display name, nothing else.
pub open spec fn spec_public_json(p: PublicStatusEvent) -> Seq<u8> {
    "{\"appointment_id\":".spec_bytes() + spec_dec_digits(p.appointment_id as nat)
        + ",\"status\":\"".spec_bytes() + encode_utf8(p.status.spec_label())
        + "\",\"service\":".spec_bytes() + spec_json_str(p.service@)
        + ",\"scheduled_for\":".spec_bytes() + spec_json_str(p.scheduled_for@)
        + ",\"barber_name\":".spec_bytes() + spec_json_opt_str(p.barber_name)
        + "}".spec_bytes()
}

/// The text/event-stream framing around one payload: an `update` event
/// line, a data line, a blank line.
pub open spec fn spec_frame(payload: Seq<u8>) -> Seq<u8> {
    "event: update\ndata: ".spec_bytes() + payload + "\n\n".spec_bytes()
}

/// The JSON body of a push notification.
pub open spec fn spec_notification_json(title: Seq<char>, body: Seq<char>, url: Seq<char>) -> Seq<
    u8,
> {
    "{\"title\":".spec_bytes() + spec_json_str(title) + ",\"body\":".spec_bytes() + spec_json_str(
        body,
    ) + ",\"url\":".spec_bytes() + spec_json_str(url) + "}".spec_bytes()
}

/// Appends every byte of another buffer.
fn append_bytes(out: &mut Vec<u8>, p: &Vec<u8>)
    ensures
        final(out)@ == old(out)@ + p@,
{
    let n = p.len();
    let mut j: usize = 0;
    while j < n
        invariant
            n == p@.len(),
            j <= n,
            out@ == old(out)@ + p@.take(j as int),
        decreases n - j,
    {
        out.push(p[j]);
        proof {
            assert(out@ =~= old(out)@ + p@.take(j + 1));
        }
        j = j + 1;
    }
    proof {
        assert(out@ =~= old(out)@ + p@);
    }
}

/// Wraps one payload in the event-stream framing.
fn frame_bytes(payload: &Vec<u8>) -> (r: Vec<u8>)
    ensures
        r@ == spec_frame(payload@),
{
    let mut out: Vec<u8> = Vec::new();
    append_lit(&mut out, "event: update\ndata: ");
    append_bytes(&mut out, payload);
    append_lit(&mut out, "\n\n");
    proof {
        assert(out@ =~= spec_frame(payload@));
    }
    out
}

/// Encodes the JSON payload of one privileged-feed event.
#[verifier::rlimit(60)]
pub fn event_json_bytes(e: &ChangeEvent) -> (r: Vec<u8>)
    ensures
        r@ == spec_event_json(*e),
{
    let mut out: Vec<u8> = Vec::new();
    append_lit(&mut out, "{\"kind\":\"");
    proof {
        assert(out@ =~= "{\"kind\":\"".spec_bytes());
    }
    append_lit(&mut out, e.kind.label());
    append_lit(&mut out, "\",\"appointment_id\":");
    append_dec_u64(&mut out, e.appointment_id);
    append_lit(&mut out, ",\"status\":\"");
    append_lit(&mut out, e.status.label());
    append_lit(&mut out, "\",\"client_name\":");
    append_json_str(&mut out, e.client_name.as_str());
    append_lit(&mut out, ",\"client_phone\":");
    append_json_str(&mut out, e.client_phone.as_str());
    append_lit(&mut out, ",\"client_email\":");
    append_json_opt_str(&mut out, &e.client_email);
    append_lit(&mut out, ",\"address\":");
    append_json_str(&mut out, e.address.as_str());
    append_lit(&mut out, ",\"service\":");
    append_json_str(&mut out, e.service.as_str());
    append_lit(&mut out, ",\"notes\":");
    append_json_opt_str(&mut out, &e.notes);
    append_lit(&mut out, ",\"scheduled_for\":");
    append_json_str(&mut out, e.scheduled_for.as_str());
    append_lit(&mut out, ",\"barber_name\":");
    append_json_opt_str(&mut out, &e.barber_name);
    append_lit(&mut out, ",\"barber_id\":");
    append_json_opt_str(&mut out, &e.barber_id);
    append_lit(&mut out, ",\"latitude_microdeg\":");
    match &e.location {
        Some(g) => append_dec_i64(&mut out, g.lat_microdeg),
        None => append_lit(&mut out, "null"),
    }
    append_lit(&mut out, ",\"longitude_microdeg\":");
    match &e.location {
        Some(g) => append_dec_i64(&mut out, g.lon_microdeg),
        None => append_lit(&mut out, "null"),
    }
    append_lit(&mut out, "}");
    assert(out@ == spec_event_json(*e));
    out
}

/// Encodes one privileged-feed frame.
pub fn event_to_bytes(e: &ChangeEvent) -> (r: Vec<u8>)
    ensures
        r@ == spec_frame(spec_event_json(*e)),
{
    let payload = event_json_bytes(e);
    frame_bytes(&payload)
}

/// Encodes the JSON payload of one public-feed event.
pub fn public_json_bytes(p: &PublicStatusEvent) -> (r: Vec<u8>)
    ensures
        r@ == spec_public_json(*p),
{
    let mut out: Vec<u8> = Vec::new();
    append_lit(&mut out, "{\"appointment_id\":");
    proof {
        assert(out@ =~= "{\"appointment_id\":".spec_bytes());
    }
    append_dec_u64(&mut out, p.appointment_id);
    append_lit(&mut out, ",\"status\":\"");
    append_lit(&mut out, p.status.label());
    append_lit(&mut out, "\",\"service\":");
    append_json_str(&mut out, p.service.as_str());
    append_lit(&mut out, ",\"scheduled_for\":");
    append_json_str(&mut out, p.scheduled_for.as_str());
    append_lit(&mut out, ",\"barber_name\":");
    append_json_opt_str(&mut out, &p.barber_name);
    append_lit(&mut out, "}");
    assert(out@ == spec_public_json(*p));
    out
}

/// Encodes one public-feed frame.
pub fn public_event_to_bytes(p: &PublicStatusEvent) -> (r: Vec<u8>)
    ensures
        r@ == spec_frame(spec_public_json(*p)),
{
    let payload = public_json_bytes(p);
    frame_bytes(&payload)
}

/// Encodes the JSON body handed to the push transport.
pub fn notification_payload(title: &str, body: &str, url: &str) -> (r: Vec<u8>)
    ensures
        r@ == spec_notification_json(title@, body@, url@),
{
    let mut out: Vec<u8> = Vec::new();
    append_lit(&mut out, "{\"title\":");
    append_json_str(&mut out, title);
    append_lit(&mut out, ",\"body\":");
    append_json_str(&mut out, body);
    append_lit(&mut out, ",\"url\":");
    append_json_str(&mut out, url);
    append_lit(&mut out, "}");
    proof {
        assert(out@ =~= spec_notification_json(title@, body@, url@));
    }
    out
}

} // verus!
