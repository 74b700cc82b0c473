//! Writing tickets as JSON values: the inverse direction of `decode`.
use vstd::prelude::*;
use crate::json::{JsonValue, JsonV, entries_view, lemma_entries_view, jv_from_i64, json_clone};
use crate::jsontext::{parse_json, parsed_json, pretty_json, json_to_pretty_text};
use crate::update::{insert_all, insert_all_entries};
use crate::ticket::{
    TicketLocation, LocationV, CommuteDepartureTime, TicketPayload, PayloadV, TicketType, TicketStatus,
    Ticket, TicketV, opt_text,
};
use crate::clock::UtcTimestamp;
use crate::decode::{rfc3339_instant, ticket_from_json};
use crate::roundtrip::{lemma_ticket_round_trip, payload_reads_back, payload_type};
use crate::text::owned;

verus! {

/// An object holding the given entries (a later entry replaces an earlier
/// one with the same key).
pub open spec fn object_of(fields: Seq<(Seq<char>, JsonV)>) -> JsonV {
    JsonV::Object(insert_all(Seq::empty(), fields))
}

/// Builds an object from key/value pairs.
pub fn object_from_pairs(pairs: Vec<(String, JsonValue)>) -> (r: JsonValue)
    ensures
        r@ == object_of(entries_view(pairs@)),
{
    let mut es: Vec<(String, JsonValue)> = Vec::new();
    assert(entries_view(es@) =~= Seq::empty());
    insert_all_entries(&mut es, &pairs);
    JsonValue::Object(es)
}

/// A text or null.
pub open spec fn opt_str_json(o: Option<Seq<char>>) -> JsonV {
    match o {
        Some(s) => JsonV::Str(s),
        None => JsonV::Null,
    }
}

/// A flag or null.
pub open spec fn opt_bool_json(o: Option<bool>) -> JsonV {
    match o {
        Some(b) => JsonV::Bool(b),
        None => JsonV::Null,
    }
}

/// A number or null.
pub open spec fn opt_int_json(o: Option<i64>) -> JsonV {
    match o {
        Some(n) => jv_from_i64(n),
        None => JsonV::Null,
    }
}

/// A value or null.
pub open spec fn opt_value_json(o: Option<JsonV>) -> JsonV {
    match o {
        Some(v) => v,
        None => JsonV::Null,
    }
}

/// A coordinate written as the JSON number its rendering reads as (null if
/// it does not read as JSON).
pub open spec fn coordinate_json(t: Seq<char>) -> JsonV {
    match parsed_json(t) {
        Some(v) => v,
        None => JsonV::Null,
    }
}

/// A location as JSON, tagged by `"location_type"`.
pub open spec fn location_json(l: LocationV) -> JsonV {
    match l {
        LocationV::SavedLocation { location_id, label } => object_of(
            seq![
                ("location_type"@, JsonV::Str("saved_location"@)),
                ("location_id"@, JsonV::Str(location_id)),
                ("label"@, opt_str_json(label)),
            ],
        ),
        LocationV::Coordinates { latitude, longitude, label } => object_of(
            seq![
                ("location_type"@, JsonV::Str("coordinates"@)),
                ("latitude"@, coordinate_json(latitude)),
                ("longitude"@, coordinate_json(longitude)),
                ("label"@, opt_str_json(label)),
            ],
        ),
        LocationV::AddressText { address, label } => object_of(
            seq![
                ("location_type"@, JsonV::Str("address_text"@)),
                ("address"@, JsonV::Str(address)),
                ("label"@, opt_str_json(label)),
            ],
        ),
        LocationV::PlaceId { place_id, label } => object_of(
            seq![
                ("location_type"@, JsonV::Str("place_id"@)),
                ("place_id"@, JsonV::Str(place_id)),
                ("label"@, opt_str_json(label)),
            ],
        ),
        LocationV::CurrentPosition { label } => object_of(
            seq![("location_type"@, JsonV::Str("current_position"@)), ("label"@, opt_str_json(label))],
        ),
    }
}

/// A location or null.
pub open spec fn opt_location_json(o: Option<LocationV>) -> JsonV {
    match o {
        Some(l) => location_json(l),
        None => JsonV::Null,
    }
}

/// A departure rule as JSON, tagged by `"departure_type"`.
pub open spec fn departure_json(d: CommuteDepartureTime) -> JsonV {
    match d {
        CommuteDepartureTime::RelativeToArrival { buffer_minutes } => object_of(
            seq![
                ("departure_type"@, JsonV::Str("relative_to_arrival"@)),
                ("buffer_minutes"@, jv_from_i64(buffer_minutes)),
            ],
        ),
    }
}

/// A departure rule or null.
pub open spec fn opt_departure_json(o: Option<CommuteDepartureTime>) -> JsonV {
    match o {
        Some(d) => departure_json(d),
        None => JsonV::Null,
    }
}

/// A text as JSON.
pub(crate) fn text_json(s: &String) -> (r: JsonValue)
    ensures
        r@ == JsonV::Str(s@),
{
    JsonValue::Str(s.clone())
}

/// An optional text as JSON.
pub(crate) fn opt_text_json(o: &Option<String>) -> (r: JsonValue)
    ensures
        r@ == opt_str_json(opt_text(*o)),
{
    match o {
        Some(s) => JsonValue::Str(s.clone()),
        None => JsonValue::Null,
    }
}

/// An optional flag as JSON.
pub(crate) fn opt_flag_json(o: Option<bool>) -> (r: JsonValue)
    ensures
        r@ == opt_bool_json(o),
{
    match o {
        Some(b) => JsonValue::Bool(b),
        None => JsonValue::Null,
    }
}

/// An optional number as JSON.
pub(crate) fn opt_number_json(o: Option<i64>) -> (r: JsonValue)
    ensures
        r@ == opt_int_json(o),
{
    match o {
        Some(n) => JsonValue::from_i64(n),
        None => JsonValue::Null,
    }
}

/// An optional value as JSON.
pub(crate) fn opt_json_value(o: &Option<JsonValue>) -> (r: JsonValue)
    ensures
        r@ == opt_value_json(crate::ticket::opt_json(*o)),
{
    match o {
        Some(v) => json_clone(v),
        None => JsonValue::Null,
    }
}

/// A coordinate as JSON.
pub(crate) fn coordinate(t: &String) -> (r: JsonValue)
    ensures
        r@ == coordinate_json(t@),
{
    match parse_json(t.as_str()) {
        Some(v) => v,
        None => JsonValue::Null,
    }
}

/// Writes a location as JSON.
pub fn encode_location(l: &TicketLocation) -> (r: JsonValue)
    ensures
        r@ == location_json(l@),
{
    let mut pairs: Vec<(String, JsonValue)> = Vec::new();
    match l {
        TicketLocation::SavedLocation { location_id, label } => {
            pairs.push((owned("location_type"), JsonValue::text("saved_location")));
            pairs.push((owned("location_id"), text_json(location_id)));
            pairs.push((owned("label"), opt_text_json(label)));
            proof {
                lemma_entries_view(pairs@);
                assert(entries_view(pairs@) =~= seq![
                    ("location_type"@, JsonV::Str("saved_location"@)),
                    ("location_id"@, JsonV::Str(location_id@)),
                    ("label"@, opt_str_json(opt_text(*label))),
                ]);
            }
        },
        TicketLocation::Coordinates { latitude, longitude, label } => {
            pairs.push((owned("location_type"), JsonValue::text("coordinates")));
            pairs.push((owned("latitude"), coordinate(latitude)));
            pairs.push((owned("longitude"), coordinate(longitude)));
            pairs.push((owned("label"), opt_text_json(label)));
            proof {
                lemma_entries_view(pairs@);
                assert(entries_view(pairs@) =~= seq![
                    ("location_type"@, JsonV::Str("coordinates"@)),
                    ("latitude"@, coordinate_json(latitude@)),
                    ("longitude"@, coordinate_json(longitude@)),
                    ("label"@, opt_str_json(opt_text(*label))),
                ]);
            }
        },
        TicketLocation::AddressText { address, label } => {
            pairs.push((owned("location_type"), JsonValue::text("address_text")));
            pairs.push((owned("address"), text_json(address)));
            pairs.push((owned("label"), opt_text_json(label)));
            proof {
                lemma_entries_view(pairs@);
                assert(entries_view(pairs@) =~= seq![
                    ("location_type"@, JsonV::Str("address_text"@)),
                    ("address"@, JsonV::Str(address@)),
                    ("label"@, opt_str_json(opt_text(*label))),
                ]);
            }
        },
        TicketLocation::PlaceId { place_id, label } => {
            pairs.push((owned("location_type"), JsonValue::text("place_id")));
            pairs.push((owned("place_id"), text_json(place_id)));
            pairs.push((owned("label"), opt_text_json(label)));
            proof {
                lemma_entries_view(pairs@);
                assert(entries_view(pairs@) =~= seq![
                    ("location_type"@, JsonV::Str("place_id"@)),
                    ("place_id"@, JsonV::Str(place_id@)),
                    ("label"@, opt_str_json(opt_text(*label))),
                ]);
            }
        },
        TicketLocation::CurrentPosition { label } => {
            pairs.push((owned("location_type"), JsonValue::text("current_position")));
            pairs.push((owned("label"), opt_text_json(label)));
            proof {
                lemma_entries_view(pairs@);
                assert(entries_view(pairs@) =~= seq![
                    ("location_type"@, JsonV::Str("current_position"@)),
                    ("label"@, opt_str_json(opt_text(*label))),
                ]);
            }
        },
    }
    object_from_pairs(pairs)
}

/// Writes a departure rule as JSON.
pub fn encode_departure(d: CommuteDepartureTime) -> (r: JsonValue)
    ensures
        r@ == departure_json(d),
{
    match d {
        CommuteDepartureTime::RelativeToArrival { buffer_minutes } => {
            let mut pairs: Vec<(String, JsonValue)> = Vec::new();
            pairs.push((owned("departure_type"), JsonValue::text("relative_to_arrival")));
            pairs.push((owned("buffer_minutes"), JsonValue::from_i64(buffer_minutes)));
            proof {
                lemma_entries_view(pairs@);
                assert(entries_view(pairs@) =~= seq![
                    ("departure_type"@, JsonV::Str("relative_to_arrival"@)),
                    ("buffer_minutes"@, jv_from_i64(buffer_minutes)),
                ]);
            }
            object_from_pairs(pairs)
        },
    }
}

/// An optional location as JSON.
pub fn encode_opt_location(o: &Option<TicketLocation>) -> (r: JsonValue)
    ensures
        r@ == opt_location_json(crate::ticket::opt_location(*o)),
{
    match o {
        Some(l) => encode_location(l),
        None => JsonValue::Null,
    }
}

/// An optional departure rule as JSON.
pub fn encode_opt_departure(o: Option<CommuteDepartureTime>) -> (r: JsonValue)
    ensures
        r@ == opt_departure_json(o),
{
    match o {
        Some(d) => encode_departure(d),
        None => JsonValue::Null,
    }
}

/// A payload as JSON: its fields (absent ones as null); a generic payload
/// as the value it holds.
pub open spec fn payload_json(p: PayloadV) -> JsonV {
    match p {
        PayloadV::Commute {
            title,
            label,
            origin,
            origin_location,
            destination,
            destination_location,
            departure_time,
            scheduled_time_iso,
            rrule,
            deadline,
            days,
            related_event_id,
            live,
            minutes_remaining,
            directions,
            completed,
        } => object_of(
            seq![
                ("title"@, JsonV::Str(title)),
                ("label"@, opt_str_json(label)),
                ("origin"@, JsonV::Str(origin)),
                ("origin_location"@, opt_location_json(origin_location)),
                ("destination"@, JsonV::Str(destination)),
                ("destination_location"@, opt_location_json(destination_location)),
                ("departure_time"@, opt_departure_json(departure_time)),
                ("scheduled_time_iso"@, opt_str_json(scheduled_time_iso)),
                ("rrule"@, opt_str_json(rrule)),
                ("deadline"@, opt_str_json(deadline)),
                ("days"@, opt_str_json(days)),
                ("related_event_id"@, opt_str_json(related_event_id)),
                ("live"@, opt_bool_json(live)),
                ("minutes_remaining"@, opt_int_json(minutes_remaining)),
                ("directions"@, opt_value_json(directions)),
                ("completed"@, opt_bool_json(completed)),
            ],
        ),
        PayloadV::Countdown { title, duration_minutes, expires_at } => object_of(
            seq![
                ("title"@, JsonV::Str(title)),
                ("duration_minutes"@, jv_from_i64(duration_minutes)),
                ("expires_at"@, opt_str_json(expires_at)),
            ],
        ),
        PayloadV::Event { title, scheduled_time_iso, rrule, duration_minutes, location, completed } => object_of(
            seq![
                ("title"@, JsonV::Str(title)),
                ("scheduled_time_iso"@, opt_str_json(scheduled_time_iso)),
                ("rrule"@, opt_str_json(rrule)),
                ("duration_minutes"@, opt_int_json(duration_minutes)),
                ("location"@, opt_location_json(location)),
                ("completed"@, opt_bool_json(completed)),
            ],
        ),
        PayloadV::Habit { title, scheduled_time_iso, rrule, completed } => object_of(
            seq![
                ("title"@, JsonV::Str(title)),
                ("scheduled_time_iso"@, opt_str_json(scheduled_time_iso)),
                ("rrule"@, opt_str_json(rrule)),
                ("completed"@, opt_bool_json(completed)),
            ],
        ),
        PayloadV::Task { title, scheduled_time_iso, rrule, duration_minutes, completed } => object_of(
            seq![
                ("title"@, JsonV::Str(title)),
                ("scheduled_time_iso"@, opt_str_json(scheduled_time_iso)),
                ("rrule"@, opt_str_json(rrule)),
                ("duration_minutes"@, opt_int_json(duration_minutes)),
                ("completed"@, opt_bool_json(completed)),
            ],
        ),
        PayloadV::Generic(v) => v,
    }
}

/// Writes a payload as JSON.
pub fn encode_payload(p: &TicketPayload) -> (r: JsonValue)
    ensures
        r@ == payload_json(p@),
{
    let mut pairs: Vec<(String, JsonValue)> = Vec::new();
    match p {
        TicketPayload::Commute {
            title,
            label,
            origin,
            origin_location,
            destination,
            destination_location,
            departure_time,
            scheduled_time_iso,
            rrule,
            deadline,
            days,
            related_event_id,
            live,
            minutes_remaining,
            directions,
            completed,
        } => {
            pairs.push((owned("title"), text_json(title)));
            pairs.push((owned("label"), opt_text_json(label)));
            pairs.push((owned("origin"), text_json(origin)));
            pairs.push((owned("origin_location"), encode_opt_location(origin_location)));
            pairs.push((owned("destination"), text_json(destination)));
            pairs.push((owned("destination_location"), encode_opt_location(destination_location)));
            pairs.push((owned("departure_time"), encode_opt_departure(*departure_time)));
            pairs.push((owned("scheduled_time_iso"), opt_text_json(scheduled_time_iso)));
            pairs.push((owned("rrule"), opt_text_json(rrule)));
            pairs.push((owned("deadline"), opt_text_json(deadline)));
            pairs.push((owned("days"), opt_text_json(days)));
            pairs.push((owned("related_event_id"), opt_text_json(related_event_id)));
            pairs.push((owned("live"), opt_flag_json(*live)));
            pairs.push((owned("minutes_remaining"), opt_number_json(*minutes_remaining)));
            pairs.push((owned("directions"), opt_json_value(directions)));
            pairs.push((owned("completed"), opt_flag_json(*completed)));
            proof {
                lemma_entries_view(pairs@);
                assert(entries_view(pairs@) =~= seq![
                    ("title"@, JsonV::Str(title@)),
                    ("label"@, opt_str_json(opt_text(*label))),
                    ("origin"@, JsonV::Str(origin@)),
                    ("origin_location"@, opt_location_json(crate::ticket::opt_location(*origin_location))),
                    ("destination"@, JsonV::Str(destination@)),
                    ("destination_location"@, opt_location_json(crate::ticket::opt_location(*destination_location))),
                    ("departure_time"@, opt_departure_json(*departure_time)),
                    ("scheduled_time_iso"@, opt_str_json(opt_text(*scheduled_time_iso))),
                    ("rrule"@, opt_str_json(opt_text(*rrule))),
                    ("deadline"@, opt_str_json(opt_text(*deadline))),
                    ("days"@, opt_str_json(opt_text(*days))),
                    ("related_event_id"@, opt_str_json(opt_text(*related_event_id))),
                    ("live"@, opt_bool_json(*live)),
                    ("minutes_remaining"@, opt_int_json(*minutes_remaining)),
                    ("directions"@, opt_value_json(crate::ticket::opt_json(*directions))),
                    ("completed"@, opt_bool_json(*completed)),
                ]);
            }
            object_from_pairs(pairs)
        },
        TicketPayload::Countdown { title, duration_minutes, expires_at } => {
            pairs.push((owned("title"), text_json(title)));
            pairs.push((owned("duration_minutes"), JsonValue::from_i64(*duration_minutes)));
            pairs.push((owned("expires_at"), opt_text_json(expires_at)));
            proof {
                lemma_entries_view(pairs@);
                assert(entries_view(pairs@) =~= seq![
                    ("title"@, JsonV::Str(title@)),
                    ("duration_minutes"@, jv_from_i64(*duration_minutes)),
                    ("expires_at"@, opt_str_json(opt_text(*expires_at))),
                ]);
            }
            object_from_pairs(pairs)
        },
        TicketPayload::Event { title, scheduled_time_iso, rrule, duration_minutes, location, completed } => {
            pairs.push((owned("title"), text_json(title)));
            pairs.push((owned("scheduled_time_iso"), opt_text_json(scheduled_time_iso)));
            pairs.push((owned("rrule"), opt_text_json(rrule)));
            pairs.push((owned("duration_minutes"), opt_number_json(*duration_minutes)));
            pairs.push((owned("location"), encode_opt_location(location)));
            pairs.push((owned("completed"), opt_flag_json(*completed)));
            proof {
                lemma_entries_view(pairs@);
                assert(entries_view(pairs@) =~= seq![
                    ("title"@, JsonV::Str(title@)),
                    ("scheduled_time_iso"@, opt_str_json(opt_text(*scheduled_time_iso))),
                    ("rrule"@, opt_str_json(opt_text(*rrule))),
                    ("duration_minutes"@, opt_int_json(*duration_minutes)),
                    ("location"@, opt_location_json(crate::ticket::opt_location(*location))),
                    ("completed"@, opt_bool_json(*completed)),
                ]);
            }
            object_from_pairs(pairs)
        },
        TicketPayload::Habit { title, scheduled_time_iso, rrule, completed } => {
            pairs.push((owned("title"), text_json(title)));
            pairs.push((owned("scheduled_time_iso"), opt_text_json(scheduled_time_iso)));
            pairs.push((owned("rrule"), opt_text_json(rrule)));
            pairs.push((owned("completed"), opt_flag_json(*completed)));
            proof {
                lemma_entries_view(pairs@);
                assert(entries_view(pairs@) =~= seq![
                    ("title"@, JsonV::Str(title@)),
                    ("scheduled_time_iso"@, opt_str_json(opt_text(*scheduled_time_iso))),
                    ("rrule"@, opt_str_json(opt_text(*rrule))),
                    ("completed"@, opt_bool_json(*completed)),
                ]);
            }
            object_from_pairs(pairs)
        },
        TicketPayload::Task { title, scheduled_time_iso, rrule, duration_minutes, completed } => {
            pairs.push((owned("title"), text_json(title)));
            pairs.push((owned("scheduled_time_iso"), opt_text_json(scheduled_time_iso)));
            pairs.push((owned("rrule"), opt_text_json(rrule)));
            pairs.push((owned("duration_minutes"), opt_number_json(*duration_minutes)));
            pairs.push((owned("completed"), opt_flag_json(*completed)));
            proof {
                lemma_entries_view(pairs@);
                assert(entries_view(pairs@) =~= seq![
                    ("title"@, JsonV::Str(title@)),
                    ("scheduled_time_iso"@, opt_str_json(opt_text(*scheduled_time_iso))),
                    ("rrule"@, opt_str_json(opt_text(*rrule))),
                    ("duration_minutes"@, opt_int_json(*duration_minutes)),
                    ("completed"@, opt_bool_json(*completed)),
                ]);
            }
            object_from_pairs(pairs)
        },
        TicketPayload::Generic(v) => json_clone(v),
    }
}

/// The RFC 3339 text serde writes for an instant
/// (`DateTime::<Utc>::from_timestamp`, then `to_rfc3339_opts(SecondsFormat::AutoSi,
/// true)`), or `None` where chrono cannot represent the instant.
pub uninterp spec fn chrono_rfc3339(ts: UtcTimestamp) -> Option<Seq<char>>;

/// Renders an instant as serde writes a `chrono::DateTime<Utc>`
/// (`DateTime::from_timestamp`, then `to_rfc3339_opts(SecondsFormat::AutoSi,
/// true)`), `None` where chrono cannot represent it. The contract names
/// the result: it depends on the instant alone. For an instant of the years
/// 1970 to 9999 with less than a second of nanoseconds, chrono represents
/// it, and the text is four-digit-year RFC 3339 with every non-zero
/// sub-second digit, which `DateTime::parse_from_rfc3339` reads back as the
/// same instant.
#[verifier::external_body]
fn chrono_timestamp_text(ts: UtcTimestamp) -> (r: Option<String>)
    ensures
        match r {
            Some(t) => chrono_rfc3339(ts) == Some(t@) && (instant_writes_back(ts) ==> rfc3339_instant(t@) == Some(
                ts,
            )),
            None => chrono_rfc3339(ts) is None && !instant_writes_back(ts),
        },
{
    match chrono::DateTime::<chrono::Utc>::from_timestamp(ts.seconds, ts.nanos) {
        Some(d) => Some(d.to_rfc3339_opts(chrono::SecondsFormat::AutoSi, true)),
        None => None,
    }
}

/// The text a ticket's instant is written as: serde's RFC 3339 rendering,
/// or an empty text where chrono cannot represent the instant.
pub open spec fn rfc3339_text(ts: UtcTimestamp) -> Seq<char> {
    match chrono_rfc3339(ts) {
        Some(t) => t,
        None => Seq::empty(),
    }
}

/// Writes an instant as `rfc3339_text` says.
pub fn timestamp_text(ts: UtcTimestamp) -> (r: String)
    ensures
        r@ == rfc3339_text(ts),
        instant_writes_back(ts) ==> rfc3339_instant(r@) == Some(ts),
{
    match chrono_timestamp_text(ts) {
        Some(t) => t,
        None => String::new(),
    }
}

/// An instant chrono writes with a four-digit year and reads back: from
/// 1970-01-01 to the end of 9999, with less than a second of nanoseconds.
pub open spec fn instant_writes_back(ts: UtcTimestamp) -> bool {
    0 <= ts.seconds < 253402300800 && ts.nanos < 1_000_000_000
}

/// A ticket whose JSON reads back as itself: its payload reads back for
/// its type, and its instants are ones chrono writes and reads back.
pub open spec fn ticket_writes_back(t: Ticket) -> bool {
    &&& payload_reads_back(t.payload@)
    &&& payload_type(t.payload@) == t.ticket_type
    &&& instant_writes_back(t.created_at)
    &&& instant_writes_back(t.updated_at)
}

/// The wire name of a ticket type.
pub open spec fn type_wire_name(t: TicketType) -> Seq<char> {
    match t {
        TicketType::Task => "TASK"@,
        TicketType::Habit => "HABIT"@,
        TicketType::Event => "EVENT"@,
        TicketType::Commute => "COMMUTE"@,
        TicketType::Countdown => "COUNTDOWN"@,
    }
}

/// The wire name of a ticket type.
pub fn ticket_type_name(t: TicketType) -> (r: &'static str)
    ensures
        r@ == type_wire_name(t),
{
    match t {
        TicketType::Task => "TASK",
        TicketType::Habit => "HABIT",
        TicketType::Event => "EVENT",
        TicketType::Commute => "COMMUTE",
        TicketType::Countdown => "COUNTDOWN",
    }
}

/// The wire name of a ticket status.
pub open spec fn status_name(s: TicketStatus) -> Seq<char> {
    match s {
        TicketStatus::Idle => "idle"@,
        TicketStatus::InFocus => "in_focus"@,
        TicketStatus::Completed => "completed"@,
        TicketStatus::Expired => "expired"@,
    }
}

/// The wire name of a ticket status.
pub fn ticket_status_name(s: TicketStatus) -> (r: &'static str)
    ensures
        r@ == status_name(s),
{
    match s {
        TicketStatus::Idle => "idle",
        TicketStatus::InFocus => "in_focus",
        TicketStatus::Completed => "completed",
        TicketStatus::Expired => "expired",
    }
}

/// A ticket as JSON, its instants given by their text.
pub open spec fn ticket_json(t: TicketV, created_at: Seq<char>, updated_at: Seq<char>) -> JsonV {
    object_of(
        seq![
            ("id"@, JsonV::Str(t.id)),
            ("title"@, JsonV::Str(t.title)),
            ("type"@, JsonV::Str(type_wire_name(t.ticket_type))),
            ("status"@, JsonV::Str(status_name(t.status))),
            ("payload"@, payload_json(t.payload)),
            ("notes"@, opt_str_json(t.notes)),
            ("created_at"@, JsonV::Str(created_at)),
            ("updated_at"@, JsonV::Str(updated_at)),
        ],
    )
}

/// Writes a ticket as JSON.
pub fn encode_ticket(t: &Ticket) -> (r: JsonValue)
    ensures
        r@ == ticket_json(t@, rfc3339_text(t.created_at), rfc3339_text(t.updated_at)),
        ticket_writes_back(*t) ==> ticket_from_json(r@) == Ok::<(TicketV, UtcTimestamp, UtcTimestamp), Seq<char>>(
            (t@, t.created_at, t.updated_at),
        ),
{
    let mut pairs: Vec<(String, JsonValue)> = Vec::new();
    pairs.push((owned("id"), text_json(&t.id)));
    pairs.push((owned("title"), text_json(&t.title)));
    pairs.push((owned("type"), JsonValue::text(ticket_type_name(t.ticket_type))));
    pairs.push((owned("status"), JsonValue::text(ticket_status_name(t.status))));
    pairs.push((owned("payload"), encode_payload(&t.payload)));
    pairs.push((owned("notes"), opt_text_json(&t.notes)));
    pairs.push((owned("created_at"), JsonValue::Str(timestamp_text(t.created_at))));
    pairs.push((owned("updated_at"), JsonValue::Str(timestamp_text(t.updated_at))));
    proof {
        lemma_entries_view(pairs@);
        assert(entries_view(pairs@) =~= seq![
            ("id"@, JsonV::Str(t.id@)),
            ("title"@, JsonV::Str(t.title@)),
            ("type"@, JsonV::Str(type_wire_name(t.ticket_type))),
            ("status"@, JsonV::Str(status_name(t.status))),
            ("payload"@, payload_json(t.payload@)),
            ("notes"@, opt_str_json(opt_text(t.notes))),
            ("created_at"@, JsonV::Str(rfc3339_text(t.created_at))),
            ("updated_at"@, JsonV::Str(rfc3339_text(t.updated_at))),
        ]);
        if ticket_writes_back(*t) {
            lemma_ticket_round_trip(
                t@,
                t.created_at,
                t.updated_at,
                rfc3339_text(t.created_at),
                rfc3339_text(t.updated_at),
            );
        }
    }
    object_from_pairs(pairs)
}

/// The stack as the prompts show it: the tickets as indented JSON, or
/// `[]` where serde_json cannot write them.
pub open spec fn stack_text(ts: Seq<Ticket>) -> Seq<char> {
    match pretty_json(
        JsonV::Array(
            ts.map_values(|t: Ticket| ticket_json(t@, rfc3339_text(t.created_at), rfc3339_text(t.updated_at))),
        ),
    ) {
        Some(t) => t,
        None => "[]"@,
    }
}

/// Writes the stack as the prompts show it (see `stack_text`).
pub fn stack_json_text(ts: &Vec<Ticket>) -> (r: String)
    ensures
        r@ == stack_text(ts@),
{
    match json_to_pretty_text(&encode_tickets(ts)) {
        Some(t) => t,
        None => owned("[]"),
    }
}

/// A list of tickets as a JSON array.
pub fn encode_tickets(ts: &Vec<Ticket>) -> (r: JsonValue)
    ensures
        r@ == JsonV::Array(
            ts@.map_values(|t: Ticket| ticket_json(t@, rfc3339_text(t.created_at), rfc3339_text(t.updated_at))),
        ),
{
    let mut items: Vec<JsonValue> = Vec::new();
    let mut i: usize = 0;
    while i < ts.len()
        invariant
            i <= ts@.len(),
            items@.len() == i,
            forall|k: int|
                0 <= k < i ==> #[trigger] items@[k]@ == ticket_json(
                    ts@[k]@,
                    rfc3339_text(ts@[k].created_at),
                    rfc3339_text(ts@[k].updated_at),
                ),
        decreases ts@.len() - i,
    {
        items.push(encode_ticket(&ts[i]));
        i = i + 1;
    }
    proof {
        crate::json::lemma_items_view(items@);
        assert(crate::json::items_view(items@) =~= ts@.map_values(
            |t: Ticket| ticket_json(t@, rfc3339_text(t.created_at), rfc3339_text(t.updated_at)),
        ));
    }
    JsonValue::Array(items)
}

} // verus!
