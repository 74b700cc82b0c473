//! What is written reads back: the JSON the library writes for locations,
//! departure rules, payloads and whole tickets is read by `decode` as the
//! same value.
use vstd::prelude::*;
use crate::decode::{location_of, departure_of, decode_payload, ticket_from_json, rfc3339_instant, type_named, status_named};
use crate::encode::{object_of, location_json, departure_json, payload_json, ticket_json, type_wire_name, status_name};
use crate::json::{JsonV, jv_get, jv_as_i64, jv_from_i64};
use crate::ticket::{LocationV, CommuteDepartureTime, PayloadV, TicketType, TicketV, TicketStatus};
use crate::clock::UtcTimestamp;
use crate::update::{last_for, lemma_insert_all_get};

verus! {

/// No two entries carry the key of entry `i`.
pub open spec fn key_unique(fields: Seq<(Seq<char>, JsonV)>, i: int) -> bool {
    forall|j: int| 0 <= j < fields.len() && j != i ==> #[trigger] fields[j].0 != fields[i].0
}

proof fn lemma_last_for_unique(fields: Seq<(Seq<char>, JsonV)>, i: int)
    requires
        0 <= i < fields.len(),
        key_unique(fields, i),
    ensures
        last_for(fields, fields[i].0) == Some(fields[i].1),
    decreases fields.len(),
{
    let n = fields.len() as int;
    if i < n - 1 {
        let init = fields.subrange(0, n - 1);
        assert(fields[n - 1].0 != fields[i].0);
        assert(init[i] == fields[i]);
        assert forall|j: int| 0 <= j < init.len() && j != i implies #[trigger] init[j].0 != init[i].0 by {
            assert(init[j] == fields[j]);
        }
        lemma_last_for_unique(init, i);
    }
}

/// An entry whose key no other entry carries reads back from the object.
pub proof fn lemma_object_of_get(fields: Seq<(Seq<char>, JsonV)>, i: int)
    requires
        0 <= i < fields.len(),
        key_unique(fields, i),
    ensures
        jv_get(object_of(fields), fields[i].0) == Some(fields[i].1),
{
    lemma_last_for_unique(fields, i);
    lemma_insert_all_get(Seq::empty(), fields, fields[i].0);
}

/// An integer written as JSON reads back as itself.
pub proof fn lemma_int_round_trip(n: i64)
    ensures
        jv_as_i64(jv_from_i64(n)) == Some(n),
{
}

/// The lengths that tell the location keys and tags apart.
proof fn lemma_location_literals()
    ensures
        "location_type"@.len() == 13,
        "location_id"@.len() == 11,
        "label"@.len() == 5,
        "address"@.len() == 7,
        "place_id"@.len() == 8,
        "saved_location"@.len() == 14,
        "coordinates"@.len() == 11,
        "address_text"@.len() == 12,
        "current_position"@.len() == 16,
{
    reveal_strlit("location_type");
    reveal_strlit("location_id");
    reveal_strlit("label");
    reveal_strlit("address");
    reveal_strlit("place_id");
    reveal_strlit("saved_location");
    reveal_strlit("coordinates");
    reveal_strlit("address_text");
    reveal_strlit("current_position");
}

proof fn lemma_tagged_location(tag: Seq<char>, key: Seq<char>, value: Seq<char>, label: Option<Seq<char>>)
    requires
        key.len() != "location_type"@.len(),
        key.len() != "label"@.len(),
    ensures
        ({
            let v = object_of(
                seq![
                    ("location_type"@, JsonV::Str(tag)),
                    (key, JsonV::Str(value)),
                    ("label"@, crate::encode::opt_str_json(label)),
                ],
            );
            &&& crate::json::jv_get_str(v, "location_type"@) == Some(tag)
            &&& crate::json::jv_get_str(v, key) == Some(value)
            &&& crate::decode::opt_label(v, "label"@) == Some(label)
        }),
{
    lemma_location_literals();
    let fields = seq![
        ("location_type"@, JsonV::Str(tag)),
        (key, JsonV::Str(value)),
        ("label"@, crate::encode::opt_str_json(label)),
    ];
    lemma_object_of_get(fields, 0);
    lemma_object_of_get(fields, 1);
    lemma_object_of_get(fields, 2);
}

/// A location written as JSON reads back as itself. (Coordinates are left
/// out: their numbers are written as serde_json reads their rendering.)
pub proof fn lemma_location_round_trip(l: LocationV)
    requires
        !(l is Coordinates),
    ensures
        location_of(location_json(l)) == Some(l),
{
    lemma_location_literals();
    match l {
        LocationV::SavedLocation { location_id, label } => {
            lemma_tagged_location("saved_location"@, "location_id"@, location_id, label);
        },
        LocationV::AddressText { address, label } => {
            lemma_tagged_location("address_text"@, "address"@, address, label);
        },
        LocationV::PlaceId { place_id, label } => {
            lemma_tagged_location("place_id"@, "place_id"@, place_id, label);
        },
        LocationV::CurrentPosition { label } => {
            let fields = seq![
                ("location_type"@, JsonV::Str("current_position"@)),
                ("label"@, crate::encode::opt_str_json(label)),
            ];
            lemma_object_of_get(fields, 0);
            lemma_object_of_get(fields, 1);
        },
        LocationV::Coordinates { .. } => {},
    }
}

/// The lengths and first letters that tell the payload keys apart.
proof fn lemma_payload_literals()
    ensures
        "title"@.len() == 5,
        "title"@[0] == 't',
        "label"@.len() == 5,
        "label"@[0] == 'l',
        "origin"@.len() == 6,
        "origin"@[0] == 'o',
        "origin_location"@.len() == 15,
        "origin_location"@[0] == 'o',
        "destination"@.len() == 11,
        "destination"@[0] == 'd',
        "destination_location"@.len() == 20,
        "destination_location"@[0] == 'd',
        "departure_time"@.len() == 14,
        "departure_time"@[0] == 'd',
        "scheduled_time_iso"@.len() == 18,
        "scheduled_time_iso"@[0] == 's',
        "rrule"@.len() == 5,
        "rrule"@[0] == 'r',
        "deadline"@.len() == 8,
        "deadline"@[0] == 'd',
        "days"@.len() == 4,
        "days"@[0] == 'd',
        "related_event_id"@.len() == 16,
        "related_event_id"@[0] == 'r',
        "live"@.len() == 4,
        "live"@[0] == 'l',
        "minutes_remaining"@.len() == 17,
        "minutes_remaining"@[0] == 'm',
        "directions"@.len() == 10,
        "directions"@[0] == 'd',
        "completed"@.len() == 9,
        "completed"@[0] == 'c',
        "duration_minutes"@.len() == 16,
        "duration_minutes"@[0] == 'd',
        "expires_at"@.len() == 10,
        "expires_at"@[0] == 'e',
        "location"@.len() == 8,
        "location"@[0] == 'l',
        "departure_type"@.len() == 14,
        "departure_type"@[0] == 'd',
        "buffer_minutes"@.len() == 14,
        "buffer_minutes"@[0] == 'b',
{
    reveal_strlit("title");
    reveal_strlit("label");
    reveal_strlit("origin");
    reveal_strlit("origin_location");
    reveal_strlit("destination");
    reveal_strlit("destination_location");
    reveal_strlit("departure_time");
    reveal_strlit("scheduled_time_iso");
    reveal_strlit("rrule");
    reveal_strlit("deadline");
    reveal_strlit("days");
    reveal_strlit("related_event_id");
    reveal_strlit("live");
    reveal_strlit("minutes_remaining");
    reveal_strlit("directions");
    reveal_strlit("completed");
    reveal_strlit("duration_minutes");
    reveal_strlit("expires_at");
    reveal_strlit("location");
    reveal_strlit("departure_type");
    reveal_strlit("buffer_minutes");
}

/// A departure rule written as JSON reads back as itself.
pub proof fn lemma_departure_round_trip(d: CommuteDepartureTime)
    ensures
        departure_of(departure_json(d)) == Some(d),
{
    lemma_payload_literals();
    match d {
        CommuteDepartureTime::RelativeToArrival { buffer_minutes } => {
            let fields = seq![
                ("departure_type"@, JsonV::Str("relative_to_arrival"@)),
                ("buffer_minutes"@, jv_from_i64(buffer_minutes)),
            ];
            lemma_object_of_get(fields, 0);
            lemma_object_of_get(fields, 1);
            lemma_int_round_trip(buffer_minutes);
        },
    }
}

/// The ticket type a payload is read back for.
pub open spec fn payload_type(p: PayloadV) -> TicketType {
    match p {
        PayloadV::Commute { .. } => TicketType::Commute,
        PayloadV::Countdown { .. } => TicketType::Countdown,
        PayloadV::Event { .. } => TicketType::Event,
        PayloadV::Habit { .. } => TicketType::Habit,
        _ => TicketType::Task,
    }
}

/// A location that reads back as written: none, or one other than
/// coordinates.
pub open spec fn location_reads_back(o: Option<LocationV>) -> bool {
    match o {
        Some(l) => !(l is Coordinates),
        None => true,
    }
}

/// A payload that reads back as written: a typed payload whose locations
/// read back and whose directions, if any, are not JSON null.
pub open spec fn payload_reads_back(p: PayloadV) -> bool {
    match p {
        PayloadV::Commute { origin_location, destination_location, directions, .. } => location_reads_back(
            origin_location,
        ) && location_reads_back(destination_location) && directions != Some(JsonV::Null),
        PayloadV::Event { location, .. } => location_reads_back(location),
        PayloadV::Generic(_) => false,
        _ => true,
    }
}

proof fn lemma_opt_location_field(v: JsonV, k: Seq<char>, o: Option<LocationV>)
    requires
        jv_get(v, k) == Some(crate::encode::opt_location_json(o)),
        location_reads_back(o),
    ensures
        crate::decode::location_field(v, k) == o,
{
    if let Some(l) = o {
        lemma_location_round_trip(l);
    }
}

proof fn lemma_opt_int(o: Option<i64>)
    ensures
        jv_as_i64(crate::encode::opt_int_json(o)) == o,
{
    if let Some(n) = o {
        lemma_int_round_trip(n);
    }
}

proof fn lemma_task_reads_back(p: PayloadV)
    requires
        p is Task,
        payload_reads_back(p),
    ensures
        decode_payload(TicketType::Task, payload_json(p)) == Ok::<PayloadV, Seq<char>>(p),
{
    lemma_payload_literals();
    match p {
        PayloadV::Task { title, scheduled_time_iso, rrule, duration_minutes, completed } => {
            let fields = seq![
                ("title"@, JsonV::Str(title)),
                ("scheduled_time_iso"@, crate::encode::opt_str_json(scheduled_time_iso)),
                ("rrule"@, crate::encode::opt_str_json(rrule)),
                ("duration_minutes"@, crate::encode::opt_int_json(duration_minutes)),
                ("completed"@, crate::encode::opt_bool_json(completed)),
            ];
            lemma_object_of_get(fields, 0);
            lemma_object_of_get(fields, 1);
            lemma_object_of_get(fields, 2);
            lemma_object_of_get(fields, 3);
            lemma_object_of_get(fields, 4);
            lemma_opt_int(duration_minutes);
        },
        _ => {},
    }
}

proof fn lemma_habit_reads_back(p: PayloadV)
    requires
        p is Habit,
        payload_reads_back(p),
    ensures
        decode_payload(TicketType::Habit, payload_json(p)) == Ok::<PayloadV, Seq<char>>(p),
{
    lemma_payload_literals();
    match p {
        PayloadV::Habit { title, scheduled_time_iso, rrule, completed } => {
            let fields = seq![
                ("title"@, JsonV::Str(title)),
                ("scheduled_time_iso"@, crate::encode::opt_str_json(scheduled_time_iso)),
                ("rrule"@, crate::encode::opt_str_json(rrule)),
                ("completed"@, crate::encode::opt_bool_json(completed)),
            ];
            lemma_object_of_get(fields, 0);
            lemma_object_of_get(fields, 1);
            lemma_object_of_get(fields, 2);
            lemma_object_of_get(fields, 3);

        },
        _ => {},
    }
}

proof fn lemma_event_reads_back(p: PayloadV)
    requires
        p is Event,
        payload_reads_back(p),
    ensures
        decode_payload(TicketType::Event, payload_json(p)) == Ok::<PayloadV, Seq<char>>(p),
{
    lemma_payload_literals();
    match p {
        PayloadV::Event { title, scheduled_time_iso, rrule, duration_minutes, location, completed } => {
            let fields = seq![
                ("title"@, JsonV::Str(title)),
                ("scheduled_time_iso"@, crate::encode::opt_str_json(scheduled_time_iso)),
                ("rrule"@, crate::encode::opt_str_json(rrule)),
                ("duration_minutes"@, crate::encode::opt_int_json(duration_minutes)),
                ("location"@, crate::encode::opt_location_json(location)),
                ("completed"@, crate::encode::opt_bool_json(completed)),
            ];
            lemma_object_of_get(fields, 0);
            lemma_object_of_get(fields, 1);
            lemma_object_of_get(fields, 2);
            lemma_object_of_get(fields, 3);
            lemma_object_of_get(fields, 4);
            lemma_object_of_get(fields, 5);
            lemma_opt_int(duration_minutes);
            lemma_opt_location_field(payload_json(p), "location"@, location);
        },
        _ => {},
    }
}

proof fn lemma_countdown_reads_back(p: PayloadV)
    requires
        p is Countdown,
        payload_reads_back(p),
    ensures
        decode_payload(TicketType::Countdown, payload_json(p)) == Ok::<PayloadV, Seq<char>>(p),
{
    lemma_payload_literals();
    match p {
        PayloadV::Countdown { title, duration_minutes, expires_at } => {
            let fields = seq![
                ("title"@, JsonV::Str(title)),
                ("duration_minutes"@, jv_from_i64(duration_minutes)),
                ("expires_at"@, crate::encode::opt_str_json(expires_at)),
            ];
            lemma_object_of_get(fields, 0);
            lemma_object_of_get(fields, 1);
            lemma_object_of_get(fields, 2);
            lemma_int_round_trip(duration_minutes);
        },
        _ => {},
    }
}

#[verifier::spinoff_prover]
#[verifier::rlimit(40)]
proof fn lemma_commute_reads_back(p: PayloadV)
    requires
        p is Commute,
        payload_reads_back(p),
    ensures
        decode_payload(TicketType::Commute, payload_json(p)) == Ok::<PayloadV, Seq<char>>(p),
{
    lemma_payload_literals();
    match p {
        PayloadV::Commute { title, label, origin, origin_location, destination, destination_location, departure_time, scheduled_time_iso, rrule, deadline, days, related_event_id, live, minutes_remaining, directions, completed } => {
            let fields = seq![
                ("title"@, JsonV::Str(title)),
                ("label"@, crate::encode::opt_str_json(label)),
                ("origin"@, JsonV::Str(origin)),
                ("origin_location"@, crate::encode::opt_location_json(origin_location)),
                ("destination"@, JsonV::Str(destination)),
                ("destination_location"@, crate::encode::opt_location_json(destination_location)),
                ("departure_time"@, crate::encode::opt_departure_json(departure_time)),
                ("scheduled_time_iso"@, crate::encode::opt_str_json(scheduled_time_iso)),
                ("rrule"@, crate::encode::opt_str_json(rrule)),
                ("deadline"@, crate::encode::opt_str_json(deadline)),
                ("days"@, crate::encode::opt_str_json(days)),
                ("related_event_id"@, crate::encode::opt_str_json(related_event_id)),
                ("live"@, crate::encode::opt_bool_json(live)),
                ("minutes_remaining"@, crate::encode::opt_int_json(minutes_remaining)),
                ("directions"@, crate::encode::opt_value_json(directions)),
                ("completed"@, crate::encode::opt_bool_json(completed)),
            ];
            lemma_object_of_get(fields, 0);
            lemma_object_of_get(fields, 1);
            lemma_object_of_get(fields, 2);
            lemma_object_of_get(fields, 3);
            lemma_object_of_get(fields, 4);
            lemma_object_of_get(fields, 5);
            lemma_object_of_get(fields, 6);
            lemma_object_of_get(fields, 7);
            lemma_object_of_get(fields, 8);
            lemma_object_of_get(fields, 9);
            lemma_object_of_get(fields, 10);
            lemma_object_of_get(fields, 11);
            lemma_object_of_get(fields, 12);
            lemma_object_of_get(fields, 13);
            lemma_object_of_get(fields, 14);
            lemma_object_of_get(fields, 15);
            lemma_opt_int(minutes_remaining);
            lemma_opt_location_field(payload_json(p), "origin_location"@, origin_location);
            lemma_opt_location_field(payload_json(p), "destination_location"@, destination_location);
            if let Some(d) = departure_time {
                lemma_departure_round_trip(d);
            }
        },
        _ => {},
    }
}

/// A typed payload written as JSON reads back, for its ticket type, as
/// itself; this holds for every payload whose locations read back and whose
/// directions are not JSON null.
pub proof fn lemma_payload_round_trip(p: PayloadV)
    requires
        payload_reads_back(p),
    ensures
        decode_payload(payload_type(p), payload_json(p)) == Ok::<PayloadV, Seq<char>>(p),
{
    match p {
        PayloadV::Commute { .. } => lemma_commute_reads_back(p),
        PayloadV::Countdown { .. } => lemma_countdown_reads_back(p),
        PayloadV::Event { .. } => lemma_event_reads_back(p),
        PayloadV::Habit { .. } => lemma_habit_reads_back(p),
        PayloadV::Task { .. } => lemma_task_reads_back(p),
        PayloadV::Generic(_) => {},
    }
}
/// The lengths and first letters that tell the ticket keys and names apart.
proof fn lemma_ticket_literals()
    ensures
        "id"@.len() == 2,
        "id"@[0] == 'i',
        "title"@.len() == 5,
        "title"@[0] == 't',
        "type"@.len() == 4,
        "type"@[0] == 't',
        "status"@.len() == 6,
        "status"@[0] == 's',
        "payload"@.len() == 7,
        "payload"@[0] == 'p',
        "notes"@.len() == 5,
        "notes"@[0] == 'n',
        "created_at"@.len() == 10,
        "created_at"@[0] == 'c',
        "updated_at"@.len() == 10,
        "updated_at"@[0] == 'u',
        "TASK"@.len() == 4,
        "TASK"@[0] == 'T',
        "HABIT"@.len() == 5,
        "HABIT"@[0] == 'H',
        "EVENT"@.len() == 5,
        "EVENT"@[0] == 'E',
        "COMMUTE"@.len() == 7,
        "COMMUTE"@[0] == 'C',
        "COUNTDOWN"@.len() == 9,
        "COUNTDOWN"@[0] == 'C',
        "idle"@.len() == 4,
        "idle"@[0] == 'i',
        "in_focus"@.len() == 8,
        "in_focus"@[0] == 'i',
        "completed"@.len() == 9,
        "completed"@[0] == 'c',
        "expired"@.len() == 7,
        "expired"@[0] == 'e',
{
    reveal_strlit("id");
    reveal_strlit("title");
    reveal_strlit("type");
    reveal_strlit("status");
    reveal_strlit("payload");
    reveal_strlit("notes");
    reveal_strlit("created_at");
    reveal_strlit("updated_at");
    reveal_strlit("TASK");
    reveal_strlit("HABIT");
    reveal_strlit("EVENT");
    reveal_strlit("COMMUTE");
    reveal_strlit("COUNTDOWN");
    reveal_strlit("idle");
    reveal_strlit("in_focus");
    reveal_strlit("completed");
    reveal_strlit("expired");
}

/// A ticket's type and status read back from their wire names.
proof fn lemma_names_read_back(ty: TicketType, st: TicketStatus)
    ensures
        type_named(type_wire_name(ty)) == Some(ty),
        status_named(status_name(st)) == Some(st),
{
    lemma_ticket_literals();
}

/// A ticket written as JSON reads back as itself, with its instants,
/// wherever its payload reads back for its type and the texts written for
/// its instants read back as them.
pub proof fn lemma_ticket_round_trip(t: TicketV, created: UtcTimestamp, updated: UtcTimestamp, created_text: Seq<char>, updated_text: Seq<char>)
    requires
        payload_reads_back(t.payload),
        payload_type(t.payload) == t.ticket_type,
        rfc3339_instant(created_text) == Some(created),
        rfc3339_instant(updated_text) == Some(updated),
    ensures
        ticket_from_json(ticket_json(t, created_text, updated_text)) == Ok::<
            (TicketV, UtcTimestamp, UtcTimestamp),
            Seq<char>,
        >((t, created, updated)),
{
    lemma_ticket_literals();
    lemma_names_read_back(t.ticket_type, t.status);
    lemma_payload_round_trip(t.payload);
    let fields = seq![
        ("id"@, JsonV::Str(t.id)),
        ("title"@, JsonV::Str(t.title)),
        ("type"@, JsonV::Str(type_wire_name(t.ticket_type))),
        ("status"@, JsonV::Str(status_name(t.status))),
        ("payload"@, payload_json(t.payload)),
        ("notes"@, crate::encode::opt_str_json(t.notes)),
        ("created_at"@, JsonV::Str(created_text)),
        ("updated_at"@, JsonV::Str(updated_text)),
    ];
    assert(ticket_json(t, created_text, updated_text) == object_of(fields));
    lemma_object_of_get(fields, 0);
    lemma_object_of_get(fields, 1);
    lemma_object_of_get(fields, 2);
    lemma_object_of_get(fields, 3);
    lemma_object_of_get(fields, 4);
    lemma_object_of_get(fields, 5);
    lemma_object_of_get(fields, 6);
    lemma_object_of_get(fields, 7);
}

} // verus!
