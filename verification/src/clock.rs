//! Identifiers and wall-clock time, the two inputs that come from outside.
use vstd::prelude::*;

verus! {

/// A UTC instant: whole seconds since the Unix epoch and the nanoseconds past
/// them (chrono's `DateTime<Utc>` as plain values).
#[derive(Clone, Copy, Debug, PartialEq, Eq, Structural)]
pub struct UtcTimestamp {
    pub seconds: i64,
    pub nanos: u32,
}

/// Reads the system clock (`chrono::Utc::now`). Nothing is promised of the
/// instant returned: it depends on the machine's clock.
#[verifier::external_body]
pub(crate) fn utc_now() -> (r: UtcTimestamp) {
    let now = chrono::Utc::now();
    UtcTimestamp { seconds: now.timestamp(), nanos: now.timestamp_subsec_nanos() }
}

/// A random version-4 UUID in its hyphenated form (`uuid::Uuid::new_v4`
/// then `to_string`): 36 characters. Which UUID comes back is left open.
#[verifier::external_body]
pub(crate) fn new_uuid() -> (r: String)
    ensures
        r@.len() == 36,
{
    uuid::Uuid::new_v4().to_string()
}

/// The current UTC time in RFC 3339 form (`chrono::Utc::now().to_rfc3339()`).
/// Nothing is promised of the text: it depends on the machine's clock.
#[verifier::external_body]
pub(crate) fn now_rfc3339() -> (r: String) {
    chrono::Utc::now().to_rfc3339()
}

/// The text `DateTime<Utc>::to_rfc3339` gives for an instant, or `None`
/// where `DateTime::<Utc>::from_timestamp` cannot represent it.
pub uninterp spec fn chrono_offset_rfc3339(ts: UtcTimestamp) -> Option<Seq<char>>;

/// Renders an instant with `chrono::DateTime::<Utc>::from_timestamp` then
/// `to_rfc3339` (offset written `+00:00`), `None` where chrono cannot
/// represent it. The contract names the result: it depends on the instant
/// alone.
#[verifier::external_body]
fn chrono_offset_text(ts: UtcTimestamp) -> (r: Option<String>)
    ensures
        match r {
            Some(t) => chrono_offset_rfc3339(ts) == Some(t@),
            None => chrono_offset_rfc3339(ts) is None,
        },
{
    match chrono::DateTime::<chrono::Utc>::from_timestamp(ts.seconds, ts.nanos) {
        Some(d) => Some(d.to_rfc3339()),
        None => None,
    }
}

/// An instant in RFC 3339 form with a `+00:00` offset; an instant chrono
/// cannot represent gives an empty text.
pub open spec fn rfc3339_offset_text(ts: UtcTimestamp) -> Seq<char> {
    match chrono_offset_rfc3339(ts) {
        Some(t) => t,
        None => Seq::empty(),
    }
}

/// Writes an instant as `rfc3339_offset_text` says.
pub fn utc_rfc3339(ts: UtcTimestamp) -> (r: String)
    ensures
        r@ == rfc3339_offset_text(ts),
{
    match chrono_offset_text(ts) {
        Some(t) => t,
        None => String::new(),
    }
}

/// The most minutes ahead a countdown may be set.
pub const MAX_COUNTDOWN_MINUTES: i64 = 100_000_000_000;

/// `ts` moved by `minutes` (earlier when negative), as `DateTime<Utc> +
/// Duration::minutes` moves it; `None` past what the seconds can hold.
pub open spec fn minutes_after(ts: UtcTimestamp, minutes: i64) -> Option<UtcTimestamp> {
    let s = ts.seconds + 60 * minutes;
    if i64::MIN <= s <= i64::MAX {
        Some(UtcTimestamp { seconds: s as i64, nanos: ts.nanos })
    } else {
        None
    }
}

/// The expiry of a countdown of `minutes` started at `now`, in RFC 3339
/// form with a `+00:00` offset; empty where the instant cannot be written.
pub open spec fn expiry_text(now: UtcTimestamp, minutes: i64) -> Seq<char> {
    match minutes_after(now, minutes) {
        Some(t) => rfc3339_offset_text(t),
        None => Seq::empty(),
    }
}

/// The instant `minutes` from now in RFC 3339 form: the clock is read, and
/// the text is the expiry of a countdown started then.
pub(crate) fn expires_after_minutes(minutes: i64) -> (r: String)
    requires
        -MAX_COUNTDOWN_MINUTES <= minutes <= MAX_COUNTDOWN_MINUTES,
    ensures
        exists|now: UtcTimestamp| #![trigger expiry_text(now, minutes)] r@ == expiry_text(now, minutes),
{
    let now = utc_now();
    let s: i128 = now.seconds as i128 + 60 * (minutes as i128);
    if s < i64::MIN as i128 || s > i64::MAX as i128 {
        assert(expiry_text(now, minutes) == Seq::<char>::empty());
        return String::new();
    }
    let t = UtcTimestamp { seconds: s as i64, nanos: now.nanos };
    let r = utc_rfc3339(t);
    assert(r@ == expiry_text(now, minutes));
    r
}

} // verus!
