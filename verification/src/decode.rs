//! Reading tickets' typed content out of JSON documents.
use vstd::prelude::*;
use crate::json::{JsonValue, JsonV, json_clone, jv_get, jv_get_str, jv_get_i64, jv_get_bool};
use crate::text::{nat_text, int_text, str_eq, u64_text, i64_text, concat3};
use crate::clock::UtcTimestamp;
use crate::ticket::{Ticket, TicketStatus, TicketV};
use crate::ticket::{
    TicketType, TicketPayload, PayloadV, TicketLocation, LocationV, CommuteDepartureTime, opt_text,
};

verus! {

/// An optional text field: absent or null is `Some(None)`, a text is
/// `Some(Some(..))`, anything else is ill-typed (`None`).
pub open spec fn opt_label(v: JsonV, k: Seq<char>) -> Option<Option<Seq<char>>> {
    match jv_get(v, k) {
        None => Some(None),
        Some(JsonV::Null) => Some(None),
        Some(JsonV::Str(s)) => Some(Some(s)),
        Some(_) => None,
    }
}

/// The decimal rendering of a JSON number.
pub open spec fn number_text(x: JsonV) -> Option<Seq<char>> {
    match x {
        JsonV::PosInt(n) => Some(nat_text(n as nat)),
        JsonV::NegInt(n) => Some(int_text(n as int)),
        JsonV::Float(t) => Some(t),
        _ => None,
    }
}

/// The number under `k`, by its rendering.
pub open spec fn number_field(v: JsonV, k: Seq<char>) -> Option<Seq<char>> {
    match jv_get(v, k) {
        Some(x) => number_text(x),
        None => None,
    }
}

/// A location written as JSON, tagged by `"location_type"`.
pub open spec fn location_of(v: JsonV) -> Option<LocationV> {
    match jv_get_str(v, "location_type"@) {
        Some(t) => if t == "saved_location"@ {
            match (jv_get_str(v, "location_id"@), opt_label(v, "label"@)) {
                (Some(id), Some(l)) => Some(LocationV::SavedLocation { location_id: id, label: l }),
                _ => None,
            }
        } else if t == "coordinates"@ {
            match (number_field(v, "latitude"@), number_field(v, "longitude"@), opt_label(v, "label"@)) {
                (Some(la), Some(lo), Some(l)) => Some(
                    LocationV::Coordinates { latitude: la, longitude: lo, label: l },
                ),
                _ => None,
            }
        } else if t == "address_text"@ {
            match (jv_get_str(v, "address"@), opt_label(v, "label"@)) {
                (Some(a), Some(l)) => Some(LocationV::AddressText { address: a, label: l }),
                _ => None,
            }
        } else if t == "place_id"@ {
            match (jv_get_str(v, "place_id"@), opt_label(v, "label"@)) {
                (Some(p), Some(l)) => Some(LocationV::PlaceId { place_id: p, label: l }),
                _ => None,
            }
        } else if t == "current_position"@ {
            match opt_label(v, "label"@) {
                Some(l) => Some(LocationV::CurrentPosition { label: l }),
                _ => None,
            }
        } else {
            None
        },
        None => None,
    }
}

/// A departure time written as JSON, tagged by `"departure_type"`.
pub open spec fn departure_of(v: JsonV) -> Option<CommuteDepartureTime> {
    if jv_get_str(v, "departure_type"@) == Some("relative_to_arrival"@) {
        match jv_get_i64(v, "buffer_minutes"@) {
            Some(b) => Some(CommuteDepartureTime::RelativeToArrival { buffer_minutes: b }),
            None => None,
        }
    } else {
        None
    }
}

/// The location under `k` of an object; absent, null or malformed is `None`.
pub open spec fn location_field(v: JsonV, k: Seq<char>) -> Option<LocationV> {
    match jv_get(v, k) {
        Some(x) => location_of(x),
        None => None,
    }
}

/// The departure time under `k` of an object; absent, null or malformed is `None`.
pub open spec fn departure_field(v: JsonV, k: Seq<char>) -> Option<CommuteDepartureTime> {
    match jv_get(v, k) {
        Some(x) => departure_of(x),
        None => None,
    }
}

/// The value under `k` unless absent or null.
pub open spec fn non_null_field(v: JsonV, k: Seq<char>) -> Option<JsonV> {
    match jv_get(v, k) {
        Some(x) => if x is Null {
            None
        } else {
            Some(x)
        },
        None => None,
    }
}

/// The title under `"title"`, or `"Untitled"`.
pub open spec fn title_field(v: JsonV) -> Seq<char> {
    match jv_get_str(v, "title"@) {
        Some(t) => t,
        None => "Untitled"@,
    }
}

/// What a ticket payload of type `t` reads out of `v`, or the reason it cannot.
pub open spec fn decode_payload(t: TicketType, v: JsonV) -> Result<PayloadV, Seq<char>> {
    if !(v is Object) {
        Err("ticket payload must be a JSON object"@)
    } else {
        match t {
            TicketType::Commute => match jv_get_str(v, "origin"@) {
                None => Err("commute payload missing origin"@),
                Some(origin) => match jv_get_str(v, "destination"@) {
                    None => Err("commute payload missing destination"@),
                    Some(destination) => Ok(
                        PayloadV::Commute {
                            title: title_field(v),
                            label: jv_get_str(v, "label"@),
                            origin,
                            origin_location: location_field(v, "origin_location"@),
                            destination,
                            destination_location: location_field(v, "destination_location"@),
                            departure_time: departure_field(v, "departure_time"@),
                            scheduled_time_iso: jv_get_str(v, "scheduled_time_iso"@),
                            rrule: jv_get_str(v, "rrule"@),
                            deadline: jv_get_str(v, "deadline"@),
                            days: jv_get_str(v, "days"@),
                            related_event_id: jv_get_str(v, "related_event_id"@),
                            live: jv_get_bool(v, "live"@),
                            minutes_remaining: jv_get_i64(v, "minutes_remaining"@),
                            directions: non_null_field(v, "directions"@),
                            completed: jv_get_bool(v, "completed"@),
                        },
                    ),
                },
            },
            TicketType::Countdown => match jv_get_i64(v, "duration_minutes"@) {
                None => Err("countdown payload missing duration_minutes"@),
                Some(d) => Ok(
                    PayloadV::Countdown {
                        title: title_field(v),
                        duration_minutes: d,
                        expires_at: jv_get_str(v, "expires_at"@),
                    },
                ),
            },
            TicketType::Event => Ok(
                PayloadV::Event {
                    title: title_field(v),
                    scheduled_time_iso: jv_get_str(v, "scheduled_time_iso"@),
                    rrule: jv_get_str(v, "rrule"@),
                    duration_minutes: jv_get_i64(v, "duration_minutes"@),
                    location: location_field(v, "location"@),
                    completed: jv_get_bool(v, "completed"@),
                },
            ),
            TicketType::Habit => Ok(
                PayloadV::Habit {
                    title: title_field(v),
                    scheduled_time_iso: jv_get_str(v, "scheduled_time_iso"@),
                    rrule: jv_get_str(v, "rrule"@),
                    completed: jv_get_bool(v, "completed"@),
                },
            ),
            TicketType::Task => Ok(
                PayloadV::Task {
                    title: title_field(v),
                    scheduled_time_iso: jv_get_str(v, "scheduled_time_iso"@),
                    rrule: jv_get_str(v, "rrule"@),
                    duration_minutes: jv_get_i64(v, "duration_minutes"@),
                    completed: jv_get_bool(v, "completed"@),
                },
            ),
        }
    }
}

/// An optional text field of an object (see `opt_label`).
fn read_label(v: &JsonValue, k: &str) -> (r: Option<Option<String>>)
    ensures
        match r {
            Some(l) => opt_label(v@, k@) == Some(opt_text(l)),
            None => opt_label(v@, k@) is None,
        },
{
    match v.get(k) {
        None => Some(None),
        Some(JsonValue::Null) => Some(None),
        Some(JsonValue::Str(s)) => Some(Some(s.clone())),
        Some(_) => None,
    }
}

/// The rendering of a JSON number.
fn read_number(x: &JsonValue) -> (r: Option<String>)
    ensures
        opt_text(r) == number_text(x@),
{
    match x {
        JsonValue::PosInt(n) => Some(u64_text(*n)),
        JsonValue::NegInt(n) => {
            let t = i64_text(*n);
            proof {
                if *n >= 0 {
                    assert((*n as u64) as int == *n as int);
                    assert(x@ == JsonV::PosInt(*n as u64));
                    assert(int_text(*n as int) == nat_text((*n as u64) as nat));
                } else {
                    assert(x@ == JsonV::NegInt(*n));
                }
            }
            Some(t)
        },
        JsonValue::Float(t) => Some(t.clone()),
        _ => None,
    }
}

/// The number under `k`, by its rendering.
fn read_number_field(v: &JsonValue, k: &str) -> (r: Option<String>)
    ensures
        opt_text(r) == number_field(v@, k@),
{
    match v.get(k) {
        Some(x) => read_number(x),
        None => None,
    }
}

/// Reads a location written as JSON.
pub fn decode_location(v: &JsonValue) -> (r: Option<TicketLocation>)
    ensures
        match r {
            Some(l) => location_of(v@) == Some(l@),
            None => location_of(v@) is None,
        },
{
    let t = match v.get_string("location_type") {
        Some(t) => t,
        None => {
            return None;
        },
    };
    if str_eq(t.as_str(), "saved_location") {
        match (v.get_string("location_id"), read_label(v, "label")) {
            (Some(id), Some(l)) => Some(TicketLocation::SavedLocation { location_id: id, label: l }),
            _ => None,
        }
    } else if str_eq(t.as_str(), "coordinates") {
        match (read_number_field(v, "latitude"), read_number_field(v, "longitude"), read_label(v, "label")) {
            (Some(la), Some(lo), Some(l)) => Some(
                TicketLocation::Coordinates { latitude: la, longitude: lo, label: l },
            ),
            _ => None,
        }
    } else if str_eq(t.as_str(), "address_text") {
        match (v.get_string("address"), read_label(v, "label")) {
            (Some(a), Some(l)) => Some(TicketLocation::AddressText { address: a, label: l }),
            _ => None,
        }
    } else if str_eq(t.as_str(), "place_id") {
        match (v.get_string("place_id"), read_label(v, "label")) {
            (Some(p), Some(l)) => Some(TicketLocation::PlaceId { place_id: p, label: l }),
            _ => None,
        }
    } else if str_eq(t.as_str(), "current_position") {
        match read_label(v, "label") {
            Some(l) => Some(TicketLocation::CurrentPosition { label: l }),
            _ => None,
        }
    } else {
        None
    }
}

/// Reads a departure time written as JSON.
pub fn decode_departure_time(v: &JsonValue) -> (r: Option<CommuteDepartureTime>)
    ensures
        r == departure_of(v@),
{
    match v.get_string("departure_type") {
        Some(t) => if str_eq(t.as_str(), "relative_to_arrival") {
            match v.get_i64("buffer_minutes") {
                Some(b) => Some(CommuteDepartureTime::RelativeToArrival { buffer_minutes: b }),
                None => None,
            }
        } else {
            None
        },
        None => None,
    }
}

/// The location under `k` of an object.
pub fn read_location_field(v: &JsonValue, k: &str) -> (r: Option<TicketLocation>)
    ensures
        match r {
            Some(l) => location_field(v@, k@) == Some(l@),
            None => location_field(v@, k@) is None,
        },
{
    match v.get(k) {
        Some(x) => decode_location(x),
        None => None,
    }
}

/// The departure time under `k` of an object.
pub fn read_departure_field(v: &JsonValue, k: &str) -> (r: Option<CommuteDepartureTime>)
    ensures
        r == departure_field(v@, k@),
{
    match v.get(k) {
        Some(x) => decode_departure_time(x),
        None => None,
    }
}

/// A copy of the value under `k`, unless absent or null.
fn read_non_null(v: &JsonValue, k: &str) -> (r: Option<JsonValue>)
    ensures
        match r {
            Some(x) => non_null_field(v@, k@) == Some(x@),
            None => non_null_field(v@, k@) is None,
        },
{
    match v.get(k) {
        Some(x) => if x.is_null() {
            None
        } else {
            Some(json_clone(x))
        },
        None => None,
    }
}

/// The title under `"title"`, or `"Untitled"`.
fn read_title(v: &JsonValue) -> (r: String)
    ensures
        r@ == title_field(v@),
{
    match v.get_string("title") {
        Some(t) => t,
        None => "Untitled".to_owned(),
    }
}

/// Reads the payload of a ticket of type `type_` out of its JSON form.
pub fn decode_ticket_payload_for_type(type_: &TicketType, value: JsonValue) -> (r: Result<
    TicketPayload,
    String,
>)
    ensures
        match r {
            Ok(p) => decode_payload(*type_, value@) == Ok::<PayloadV, Seq<char>>(p@),
            Err(e) => decode_payload(*type_, value@) == Err::<PayloadV, Seq<char>>(e@),
        },
{
    let v = &value;
    match v {
        JsonValue::Object(_) => {},
        _ => {
            return Err("ticket payload must be a JSON object".to_owned());
        },
    }
    match type_ {
        TicketType::Commute => {
            let origin = match v.get_string("origin") {
                Some(o) => o,
                None => {
                    return Err("commute payload missing origin".to_owned());
                },
            };
            let destination = match v.get_string("destination") {
                Some(d) => d,
                None => {
                    return Err("commute payload missing destination".to_owned());
                },
            };
            Ok(
                TicketPayload::Commute {
                    title: read_title(v),
                    label: v.get_string("label"),
                    origin,
                    origin_location: read_location_field(v, "origin_location"),
                    destination,
                    destination_location: read_location_field(v, "destination_location"),
                    departure_time: read_departure_field(v, "departure_time"),
                    scheduled_time_iso: v.get_string("scheduled_time_iso"),
                    rrule: v.get_string("rrule"),
                    deadline: v.get_string("deadline"),
                    days: v.get_string("days"),
                    related_event_id: v.get_string("related_event_id"),
                    live: v.get_bool("live"),
                    minutes_remaining: v.get_i64("minutes_remaining"),
                    directions: read_non_null(v, "directions"),
                    completed: v.get_bool("completed"),
                },
            )
        },
        TicketType::Countdown => {
            let d = match v.get_i64("duration_minutes") {
                Some(d) => d,
                None => {
                    return Err("countdown payload missing duration_minutes".to_owned());
                },
            };
            Ok(
                TicketPayload::Countdown {
                    title: read_title(v),
                    duration_minutes: d,
                    expires_at: v.get_string("expires_at"),
                },
            )
        },
        TicketType::Event => Ok(
            TicketPayload::Event {
                title: read_title(v),
                scheduled_time_iso: v.get_string("scheduled_time_iso"),
                rrule: v.get_string("rrule"),
                duration_minutes: v.get_i64("duration_minutes"),
                location: read_location_field(v, "location"),
                completed: v.get_bool("completed"),
            },
        ),
        TicketType::Habit => Ok(
            TicketPayload::Habit {
                title: read_title(v),
                scheduled_time_iso: v.get_string("scheduled_time_iso"),
                rrule: v.get_string("rrule"),
                completed: v.get_bool("completed"),
            },
        ),
        TicketType::Task => Ok(
            TicketPayload::Task {
                title: read_title(v),
                scheduled_time_iso: v.get_string("scheduled_time_iso"),
                rrule: v.get_string("rrule"),
                duration_minutes: v.get_i64("duration_minutes"),
                completed: v.get_bool("completed"),
            },
        ),
    }
}

/// The ticket type a wire name names.
pub open spec fn type_named(t: Seq<char>) -> Option<TicketType> {
    if t == "TASK"@ {
        Some(TicketType::Task)
    } else if t == "HABIT"@ {
        Some(TicketType::Habit)
    } else if t == "EVENT"@ {
        Some(TicketType::Event)
    } else if t == "COMMUTE"@ {
        Some(TicketType::Commute)
    } else if t == "COUNTDOWN"@ {
        Some(TicketType::Countdown)
    } else {
        None
    }
}

/// The ticket status a wire name names.
pub open spec fn status_named(t: Seq<char>) -> Option<TicketStatus> {
    if t == "idle"@ {
        Some(TicketStatus::Idle)
    } else if t == "in_focus"@ {
        Some(TicketStatus::InFocus)
    } else if t == "completed"@ {
        Some(TicketStatus::Completed)
    } else if t == "expired"@ {
        Some(TicketStatus::Expired)
    } else {
        None
    }
}

/// The instant chrono reads from an RFC 3339 text (any offset, moved to UTC).
pub uninterp spec fn rfc3339_instant(s: Seq<char>) -> Option<UtcTimestamp>;

/// Reads an RFC 3339 instant as serde reads a `chrono::DateTime<Utc>`
/// (`DateTime::parse_from_rfc3339`, then UTC). The contract names the
/// result: it depends on the text alone.
#[verifier::external_body]
pub(crate) fn parse_instant(s: &str) -> (r: Option<UtcTimestamp>)
    ensures
        r == rfc3339_instant(s@),
{
    match chrono::DateTime::parse_from_rfc3339(s) {
        Ok(d) => {
            let u = d.with_timezone(&chrono::Utc);
            Some(UtcTimestamp { seconds: u.timestamp(), nanos: u.timestamp_subsec_nanos() })
        },
        Err(_) => None,
    }
}

/// The refusal for a field that is missing or of the wrong kind.
pub open spec fn bad_field(name: Seq<char>) -> Seq<char> {
    "invalid or missing field `"@ + name + "`"@
}

/// A ticket read from JSON (its content and its two instants), or why not:
/// every field must be there with the right kind (`notes` may be absent or
/// null), and the payload must decode for the ticket's type.
pub open spec fn ticket_from_json(v: JsonV) -> Result<(TicketV, UtcTimestamp, UtcTimestamp), Seq<char>> {
    if !(v is Object) {
        Err("a ticket must be a JSON object"@)
    } else {
        match jv_get_str(v, "id"@) {
            None => Err(bad_field("id"@)),
            Some(id) => match jv_get_str(v, "type"@) {
                None => Err(bad_field("type"@)),
                Some(tn) => match type_named(tn) {
                    None => Err(bad_field("type"@)),
                    Some(ty) => match jv_get_str(v, "status"@) {
                        None => Err(bad_field("status"@)),
                        Some(sn) => match status_named(sn) {
                            None => Err(bad_field("status"@)),
                            Some(st) => match jv_get(v, "payload"@) {
                                None => Err(bad_field("payload"@)),
                                Some(pv) => match opt_label(v, "notes"@) {
                                    None => Err(bad_field("notes"@)),
                                    Some(notes) => match jv_get_str(v, "created_at"@) {
                                        None => Err(bad_field("created_at"@)),
                                        Some(ct) => match rfc3339_instant(ct) {
                                            None => Err(bad_field("created_at"@)),
                                            Some(created) => match jv_get_str(v, "updated_at"@) {
                                                None => Err(bad_field("updated_at"@)),
                                                Some(ut) => match rfc3339_instant(ut) {
                                                    None => Err(bad_field("updated_at"@)),
                                                    Some(updated) => match jv_get_str(v, "title"@) {
                                                        None => Err(bad_field("title"@)),
                                                        Some(title) => match decode_payload(ty, pv) {
                                                            Err(e) => Err(e),
                                                            Ok(payload) => Ok(
                                                                (
                                                                    TicketV {
                                                                        id,
                                                                        title,
                                                                        ticket_type: ty,
                                                                        status: st,
                                                                        payload,
                                                                        notes,
                                                                    },
                                                                    created,
                                                                    updated,
                                                                ),
                                                            ),
                                                        },
                                                    },
                                                },
                                            },
                                        },
                                    },
                                },
                            },
                        },
                    },
                },
            },
        }
    }
}

/// The ticket type a wire name names.
fn read_type(t: &str) -> (r: Option<TicketType>)
    ensures
        r == type_named(t@),
{
    if str_eq(t, "TASK") {
        Some(TicketType::Task)
    } else if str_eq(t, "HABIT") {
        Some(TicketType::Habit)
    } else if str_eq(t, "EVENT") {
        Some(TicketType::Event)
    } else if str_eq(t, "COMMUTE") {
        Some(TicketType::Commute)
    } else if str_eq(t, "COUNTDOWN") {
        Some(TicketType::Countdown)
    } else {
        None
    }
}

/// The ticket status a wire name names.
fn read_status(t: &str) -> (r: Option<TicketStatus>)
    ensures
        r == status_named(t@),
{
    if str_eq(t, "idle") {
        Some(TicketStatus::Idle)
    } else if str_eq(t, "in_focus") {
        Some(TicketStatus::InFocus)
    } else if str_eq(t, "completed") {
        Some(TicketStatus::Completed)
    } else if str_eq(t, "expired") {
        Some(TicketStatus::Expired)
    } else {
        None
    }
}

/// The refusal for a field that is missing or of the wrong kind.
fn bad(name: &str) -> (r: String)
    ensures
        r@ == bad_field(name@),
{
    concat3("invalid or missing field `", name, "`")
}

impl Ticket {
    /// Reads a ticket from JSON, decoding its payload by the ticket's type.
    pub fn from_json(v: &JsonValue) -> (r: Result<Ticket, String>)
        ensures
            match r {
                Ok(t) => ticket_from_json(v@) == Ok::<(TicketV, UtcTimestamp, UtcTimestamp), Seq<char>>(
                    (t@, t.created_at, t.updated_at),
                ),
                Err(e) => ticket_from_json(v@) == Err::<(TicketV, UtcTimestamp, UtcTimestamp), Seq<char>>(e@),
            },
    {
        match v {
            JsonValue::Object(_) => {},
            _ => {
                return Err("a ticket must be a JSON object".to_owned());
            },
        }
        let id = match v.get_string("id") {
            Some(x) => x,
            None => {
                return Err(bad("id"));
            },
        };
        let tn = match v.get_string("type") {
            Some(x) => x,
            None => {
                return Err(bad("type"));
            },
        };
        let ty = match read_type(tn.as_str()) {
            Some(x) => x,
            None => {
                return Err(bad("type"));
            },
        };
        let sn = match v.get_string("status") {
            Some(x) => x,
            None => {
                return Err(bad("status"));
            },
        };
        let st = match read_status(sn.as_str()) {
            Some(x) => x,
            None => {
                return Err(bad("status"));
            },
        };
        let pv = match v.get("payload") {
            Some(x) => json_clone(x),
            None => {
                return Err(bad("payload"));
            },
        };
        let notes = match read_label(v, "notes") {
            Some(n) => n,
            None => {
                return Err(bad("notes"));
            },
        };
        let ct = match v.get_string("created_at") {
            Some(x) => x,
            None => {
                return Err(bad("created_at"));
            },
        };
        let created = match parse_instant(ct.as_str()) {
            Some(x) => x,
            None => {
                return Err(bad("created_at"));
            },
        };
        let ut = match v.get_string("updated_at") {
            Some(x) => x,
            None => {
                return Err(bad("updated_at"));
            },
        };
        let updated = match parse_instant(ut.as_str()) {
            Some(x) => x,
            None => {
                return Err(bad("updated_at"));
            },
        };
        let title = match v.get_string("title") {
            Some(x) => x,
            None => {
                return Err(bad("title"));
            },
        };
        let payload = match decode_ticket_payload_for_type(&ty, pv) {
            Ok(p) => p,
            Err(e) => {
                return Err(e);
            },
        };
        Ok(
            Ticket {
                id,
                title,
                ticket_type: ty,
                status: st,
                payload,
                notes,
                created_at: created,
                updated_at: updated,
            },
        )
    }
}

} // verus!
