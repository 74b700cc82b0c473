//! Partial updates of a ticket's payload from a JSON object of new field values.
use vstd::prelude::*;
use crate::json::{
    JsonValue, JsonV, JsonMap, json_clone, entries_view, entries_get, entries_insert, obj_get,
    obj_insert, jv_as_str, jv_as_i64, jv_as_bool, lemma_entries_view, keys_sorted,
    lemma_obj_insert_sorted, lemma_obj_insert_get, lemma_sorted_entries_ext, lemma_obj_get_sorted, obj_has,
};
use crate::text::text_lt;
use crate::roundtrip::payload_type;
use crate::decode::{location_of, departure_of, decode_location, decode_departure_time};
use crate::ticket::{payload_norm, 
    TicketPayload, PayloadV, TicketLocation, LocationV, CommuteDepartureTime, opt_text, opt_json,
    opt_location,
};

verus! {

/// A text field: replaced when the update holds a text under `k`.
pub open spec fn upd_text(u: Seq<(Seq<char>, JsonV)>, k: Seq<char>, cur: Seq<char>) -> Seq<char> {
    match obj_get(u, k) {
        Some(v) => match jv_as_str(v) {
            Some(s) => s,
            None => cur,
        },
        None => cur,
    }
}

/// An optional text field: set (to the text, or to nothing for a non-text)
/// whenever the update names `k`.
pub open spec fn upd_opt_text(u: Seq<(Seq<char>, JsonV)>, k: Seq<char>, cur: Option<Seq<char>>) -> Option<Seq<char>> {
    match obj_get(u, k) {
        Some(v) => jv_as_str(v),
        None => cur,
    }
}

/// An integer field: replaced when the update holds an integer under `k`.
pub open spec fn upd_i64(u: Seq<(Seq<char>, JsonV)>, k: Seq<char>, cur: i64) -> i64 {
    match obj_get(u, k) {
        Some(v) => match jv_as_i64(v) {
            Some(x) => x,
            None => cur,
        },
        None => cur,
    }
}

/// An optional integer field: set whenever the update names `k`.
pub open spec fn upd_opt_i64(u: Seq<(Seq<char>, JsonV)>, k: Seq<char>, cur: Option<i64>) -> Option<i64> {
    match obj_get(u, k) {
        Some(v) => jv_as_i64(v),
        None => cur,
    }
}

/// An optional boolean field: set whenever the update names `k`.
pub open spec fn upd_opt_bool(u: Seq<(Seq<char>, JsonV)>, k: Seq<char>, cur: Option<bool>) -> Option<bool> {
    match obj_get(u, k) {
        Some(v) => jv_as_bool(v),
        None => cur,
    }
}

/// An optional JSON field: set whenever the update names `k` (null clears it).
pub open spec fn upd_opt_json(u: Seq<(Seq<char>, JsonV)>, k: Seq<char>, cur: Option<JsonV>) -> Option<JsonV> {
    match obj_get(u, k) {
        Some(v) => if v is Null {
            None
        } else {
            Some(v)
        },
        None => cur,
    }
}

/// An optional location field: set whenever the update names `k`.
pub open spec fn upd_opt_location(u: Seq<(Seq<char>, JsonV)>, k: Seq<char>, cur: Option<LocationV>) -> Option<LocationV> {
    match obj_get(u, k) {
        Some(v) => location_of(v),
        None => cur,
    }
}

/// An optional departure-time field: set whenever the update names `k`.
pub open spec fn upd_opt_departure(
    u: Seq<(Seq<char>, JsonV)>,
    k: Seq<char>,
    cur: Option<CommuteDepartureTime>,
) -> Option<CommuteDepartureTime> {
    match obj_get(u, k) {
        Some(v) => departure_of(v),
        None => cur,
    }
}

/// `es` with every entry of `u` stored into it, in order.
pub open spec fn insert_all(es: Seq<(Seq<char>, JsonV)>, u: Seq<(Seq<char>, JsonV)>) -> Seq<
    (Seq<char>, JsonV),
>
    decreases u.len(),
{
    if u.len() == 0 {
        es
    } else {
        let last = u[u.len() - 1];
        obj_insert(insert_all(es, u.subrange(0, u.len() - 1)), last.0, last.1)
    }
}

/// A payload after a partial update.
pub open spec fn apply_updates(p: PayloadV, u: Seq<(Seq<char>, JsonV)>) -> PayloadV {
    match p {
        PayloadV::Commute {
            title,
            label,
            origin,
            origin_location,
            destination,
            destination_location,
            departure_time,
            scheduled_time_iso,
            rrule,
            deadline,
            days,
            related_event_id,
            live,
            minutes_remaining,
            directions,
            completed,
        } => PayloadV::Commute {
            title: upd_text(u, "title"@, title),
            label: upd_opt_text(u, "label"@, label),
            origin: upd_text(u, "origin"@, origin),
            origin_location: upd_opt_location(u, "origin_location"@, origin_location),
            destination: upd_text(u, "destination"@, destination),
            destination_location: upd_opt_location(u, "destination_location"@, destination_location),
            departure_time: upd_opt_departure(u, "departure_time"@, departure_time),
            scheduled_time_iso: upd_opt_text(u, "scheduled_time_iso"@, scheduled_time_iso),
            rrule: upd_opt_text(u, "rrule"@, rrule),
            deadline: upd_opt_text(u, "deadline"@, deadline),
            days: upd_opt_text(u, "days"@, days),
            related_event_id: upd_opt_text(u, "related_event_id"@, related_event_id),
            live: upd_opt_bool(u, "live"@, live),
            minutes_remaining: upd_opt_i64(u, "minutes_remaining"@, minutes_remaining),
            directions: upd_opt_json(u, "directions"@, directions),
            completed: upd_opt_bool(u, "completed"@, completed),
        },
        PayloadV::Countdown { title, duration_minutes, expires_at } => PayloadV::Countdown {
            title: upd_text(u, "title"@, title),
            duration_minutes: upd_i64(u, "duration_minutes"@, duration_minutes),
            expires_at: upd_opt_text(u, "expires_at"@, expires_at),
        },
        PayloadV::Event { title, scheduled_time_iso, rrule, duration_minutes, location, completed } =>
            PayloadV::Event {
            title: upd_text(u, "title"@, title),
            scheduled_time_iso: upd_opt_text(u, "scheduled_time_iso"@, scheduled_time_iso),
            rrule: upd_opt_text(u, "rrule"@, rrule),
            duration_minutes: upd_opt_i64(u, "duration_minutes"@, duration_minutes),
            location: upd_opt_location(u, "location"@, location),
            completed: upd_opt_bool(u, "completed"@, completed),
        },
        PayloadV::Habit { title, scheduled_time_iso, rrule, completed } => PayloadV::Habit {
            title: upd_text(u, "title"@, title),
            scheduled_time_iso: upd_opt_text(u, "scheduled_time_iso"@, scheduled_time_iso),
            rrule: upd_opt_text(u, "rrule"@, rrule),
            completed: upd_opt_bool(u, "completed"@, completed),
        },
        PayloadV::Task { title, scheduled_time_iso, rrule, duration_minutes, completed } =>
            PayloadV::Task {
            title: upd_text(u, "title"@, title),
            scheduled_time_iso: upd_opt_text(u, "scheduled_time_iso"@, scheduled_time_iso),
            rrule: upd_opt_text(u, "rrule"@, rrule),
            duration_minutes: upd_opt_i64(u, "duration_minutes"@, duration_minutes),
            completed: upd_opt_bool(u, "completed"@, completed),
        },
        PayloadV::Generic(v) => match v {
            JsonV::Object(es) => PayloadV::Generic(JsonV::Object(insert_all(es, u))),
            _ => PayloadV::Generic(v),
        },
    }
}

/// The text a typed payload holds in its field named `k`, for the text
/// fields every payload of its kind has (title, origin, destination).
pub open spec fn text_field(p: PayloadV, k: Seq<char>) -> Option<Seq<char>> {
    match p {
        PayloadV::Commute { title, origin, destination, .. } => if k == "title"@ {
            Some(title)
        } else if k == "origin"@ {
            Some(origin)
        } else if k == "destination"@ {
            Some(destination)
        } else {
            None
        },
        PayloadV::Countdown { title, .. } => if k == "title"@ {
            Some(title)
        } else {
            None
        },
        PayloadV::Event { title, .. } => if k == "title"@ {
            Some(title)
        } else {
            None
        },
        PayloadV::Habit { title, .. } => if k == "title"@ {
            Some(title)
        } else {
            None
        },
        PayloadV::Task { title, .. } => if k == "title"@ {
            Some(title)
        } else {
            None
        },
        PayloadV::Generic(_) => None,
    }
}

/// The optional text a typed payload holds in its field named `k`, where
/// its kind has such a field.
pub open spec fn opt_text_field(p: PayloadV, k: Seq<char>) -> Option<Option<Seq<char>>> {
    match p {
        PayloadV::Commute { label, scheduled_time_iso, rrule, deadline, days, related_event_id, .. } => if k
            == "label"@ {
            Some(label)
        } else if k == "scheduled_time_iso"@ {
            Some(scheduled_time_iso)
        } else if k == "rrule"@ {
            Some(rrule)
        } else if k == "deadline"@ {
            Some(deadline)
        } else if k == "days"@ {
            Some(days)
        } else if k == "related_event_id"@ {
            Some(related_event_id)
        } else {
            None
        },
        PayloadV::Countdown { expires_at, .. } => if k == "expires_at"@ {
            Some(expires_at)
        } else {
            None
        },
        PayloadV::Event { scheduled_time_iso, rrule, .. } => if k == "scheduled_time_iso"@ {
            Some(scheduled_time_iso)
        } else if k == "rrule"@ {
            Some(rrule)
        } else {
            None
        },
        PayloadV::Habit { scheduled_time_iso, rrule, .. } => if k == "scheduled_time_iso"@ {
            Some(scheduled_time_iso)
        } else if k == "rrule"@ {
            Some(rrule)
        } else {
            None
        },
        PayloadV::Task { scheduled_time_iso, rrule, .. } => if k == "scheduled_time_iso"@ {
            Some(scheduled_time_iso)
        } else if k == "rrule"@ {
            Some(rrule)
        } else {
            None
        },
        PayloadV::Generic(_) => None,
    }
}

/// The optional flag a typed payload holds in its field named `k`.
pub open spec fn opt_bool_field(p: PayloadV, k: Seq<char>) -> Option<Option<bool>> {
    match p {
        PayloadV::Commute { live, completed, .. } => if k == "live"@ {
            Some(live)
        } else if k == "completed"@ {
            Some(completed)
        } else {
            None
        },
        PayloadV::Event { completed, .. } => if k == "completed"@ {
            Some(completed)
        } else {
            None
        },
        PayloadV::Habit { completed, .. } => if k == "completed"@ {
            Some(completed)
        } else {
            None
        },
        PayloadV::Task { completed, .. } => if k == "completed"@ {
            Some(completed)
        } else {
            None
        },
        _ => None,
    }
}

/// The optional integer a typed payload holds in its field named `k`.
pub open spec fn opt_int_field(p: PayloadV, k: Seq<char>) -> Option<Option<i64>> {
    match p {
        PayloadV::Commute { minutes_remaining, .. } => if k == "minutes_remaining"@ {
            Some(minutes_remaining)
        } else {
            None
        },
        PayloadV::Event { duration_minutes, .. } => if k == "duration_minutes"@ {
            Some(duration_minutes)
        } else {
            None
        },
        PayloadV::Task { duration_minutes, .. } => if k == "duration_minutes"@ {
            Some(duration_minutes)
        } else {
            None
        },
        _ => None,
    }
}

/// The optional place a typed payload holds in its field named `k`.
pub open spec fn opt_location_field(p: PayloadV, k: Seq<char>) -> Option<Option<LocationV>> {
    match p {
        PayloadV::Commute { origin_location, destination_location, .. } => if k == "origin_location"@ {
            Some(origin_location)
        } else if k == "destination_location"@ {
            Some(destination_location)
        } else {
            None
        },
        PayloadV::Event { location, .. } => if k == "location"@ {
            Some(location)
        } else {
            None
        },
        _ => None,
    }
}

/// A partial update on a commute's departure rule and directions: named,
/// the rule is what the named value decodes to, and the directions are the
/// named value (null clears them); not named, both stay.
pub proof fn lemma_update_commute_extras(p: PayloadV, u: Seq<(Seq<char>, JsonV)>)
    requires
        p is Commute,
    ensures
        apply_updates(p, u) matches PayloadV::Commute { departure_time: dt, directions: dr, .. } && dt == match obj_get(
            u,
            "departure_time"@,
        ) {
            Some(v) => departure_of(v),
            None => p->departure_time,
        } && dr == match obj_get(u, "directions"@) {
            Some(JsonV::Null) => None,
            Some(v) => Some(v),
            None => p->directions,
        },
{
}

/// A partial update on a typed payload, field by field: the payload keeps
/// its kind; a text field named with a text takes it (named with anything
/// else, it stays); an optional text, flag or number field named in the
/// update takes the named value when it is of the field's kind and is
/// cleared otherwise; a countdown's length named with an integer takes it;
/// every field the update does not name keeps its value.
pub proof fn lemma_update_fields(p: PayloadV, u: Seq<(Seq<char>, JsonV)>, k: Seq<char>)
    requires
        !(p is Generic),
    ensures
        payload_type(apply_updates(p, u)) == payload_type(p),
        !(apply_updates(p, u) is Generic),
        text_field(p, k) matches Some(cur) ==> text_field(apply_updates(p, u), k) == Some(
            match obj_get(u, k) {
                Some(JsonV::Str(t)) => t,
                _ => cur,
            },
        ),
        opt_text_field(p, k) matches Some(cur) ==> opt_text_field(apply_updates(p, u), k) == Some(
            match obj_get(u, k) {
                Some(JsonV::Str(t)) => Some(t),
                Some(_) => None,
                None => cur,
            },
        ),
        opt_bool_field(p, k) matches Some(cur) ==> opt_bool_field(apply_updates(p, u), k) == Some(
            match obj_get(u, k) {
                Some(JsonV::Bool(b)) => Some(b),
                Some(_) => None,
                None => cur,
            },
        ),
        opt_location_field(p, k) matches Some(cur) ==> opt_location_field(apply_updates(p, u), k) == Some(
            match obj_get(u, k) {
                Some(v) => location_of(v),
                None => cur,
            },
        ),
        opt_int_field(p, k) matches Some(cur) ==> opt_int_field(apply_updates(p, u), k) == Some(
            match obj_get(u, k) {
                Some(v) => jv_as_i64(v),
                None => cur,
            },
        ),
        p matches PayloadV::Countdown { duration_minutes, .. } ==> (apply_updates(p, u) matches PayloadV::Countdown {
            duration_minutes: d,
            ..
        } && d == match obj_get(u, "duration_minutes"@) {
            Some(v) => match jv_as_i64(v) {
                Some(x) => x,
                None => duration_minutes,
            },
            None => duration_minutes,
        }),
{
}

/// The value the last entry of `u` with key `k` holds, if any.
pub open spec fn last_for(u: Seq<(Seq<char>, JsonV)>, k: Seq<char>) -> Option<JsonV>
    decreases u.len(),
{
    if u.len() == 0 {
        None
    } else if u[u.len() - 1].0 == k {
        Some(u[u.len() - 1].1)
    } else {
        last_for(u.subrange(0, u.len() - 1), k)
    }
}

/// In entries with keys strictly increasing, the last value given to a key
/// is the one stored under it.
pub proof fn lemma_last_for_sorted(u: Seq<(Seq<char>, JsonV)>, k: Seq<char>)
    requires
        keys_sorted(u),
    ensures
        last_for(u, k) == obj_get(u, k),
    decreases u.len(),
{
    lemma_obj_get_sorted(u, k);
    if u.len() > 0 {
        let init = u.subrange(0, u.len() - 1);
        assert(keys_sorted(init)) by {
            assert forall|i: int, j: int| 0 <= i < j < init.len() implies text_lt(
                #[trigger] init[i].0,
                #[trigger] init[j].0,
            ) by {
                assert(init[i] == u[i] && init[j] == u[j]);
            }
        }
        lemma_last_for_sorted(init, k);
        lemma_obj_get_sorted(init, k);
        if u[u.len() - 1].0 != k {
            if obj_has(init, k) {
                let i = choose|i: int| 0 <= i < init.len() && #[trigger] init[i].0 == k;
                assert(u[i] == init[i]);
            } else {
                assert forall|i: int| 0 <= i < u.len() implies #[trigger] u[i].0 != k by {
                    if i < u.len() - 1 {
                        assert(u[i] == init[i]);
                    }
                }
            }
        }
    }
}

/// Storing entries into sorted entries keeps them sorted, and each key then
/// holds the last value `u` gives it, or what it held before.
pub proof fn lemma_insert_all_get(es: Seq<(Seq<char>, JsonV)>, u: Seq<(Seq<char>, JsonV)>, k: Seq<char>)
    requires
        keys_sorted(es),
    ensures
        keys_sorted(insert_all(es, u)),
        obj_get(insert_all(es, u), k) == match last_for(u, k) {
            Some(v) => Some(v),
            None => obj_get(es, k),
        },
    decreases u.len(),
{
    if u.len() > 0 {
        let init = u.subrange(0, u.len() - 1);
        let last = u[u.len() - 1];
        lemma_insert_all_get(es, init, k);
        lemma_obj_insert_sorted(insert_all(es, init), last.0, last.1);
        lemma_obj_insert_get(insert_all(es, init), last.0, last.1, k);
    }
}

/// Storing the same entries a second time changes nothing.
proof fn lemma_insert_all_twice(es: Seq<(Seq<char>, JsonV)>, u: Seq<(Seq<char>, JsonV)>)
    requires
        keys_sorted(es),
    ensures
        insert_all(insert_all(es, u), u) == insert_all(es, u),
{
    let once = insert_all(es, u);
    assert forall|k: Seq<char>| #[trigger] obj_get(insert_all(once, u), k) == obj_get(once, k) by {
        lemma_insert_all_get(es, u, k);
        lemma_insert_all_get(once, u, k);
    }
    lemma_insert_all_get(es, u, Seq::empty());
    lemma_insert_all_get(once, u, Seq::empty());
    lemma_sorted_entries_ext(insert_all(once, u), once);
}

/// A partial update is idempotent: applying it to a payload it was already
/// applied to changes nothing, so the updated payload matches the update.
/// (A free-form payload's object is taken with its keys in order, as
/// serde_json keeps them.)
pub proof fn lemma_apply_updates_idempotent(p: PayloadV, u: Seq<(Seq<char>, JsonV)>)
    requires
        p matches PayloadV::Generic(JsonV::Object(es)) ==> keys_sorted(es),
    ensures
        apply_updates(apply_updates(p, u), u) == apply_updates(p, u),
{
    if let PayloadV::Generic(JsonV::Object(es)) = p {
        lemma_insert_all_twice(es, u);
    }
}

fn apply_string_field(updates: &JsonMap, key: &str, target: &mut String)
    ensures
        final(target)@ == upd_text(entries_view(updates@), key@, old(target)@),
{
    match entries_get(updates, key) {
        Some(v) => match v.as_str() {
            Some(s) => {
                *target = s.to_owned();
            },
            None => {},
        },
        None => {},
    }
}

fn apply_option_string_field(updates: &JsonMap, key: &str, target: &mut Option<String>)
    ensures
        opt_text(*final(target)) == upd_opt_text(entries_view(updates@), key@, opt_text(*old(target))),
{
    match entries_get(updates, key) {
        Some(v) => {
            *target = match v.as_str() {
                Some(s) => Some(s.to_owned()),
                None => None,
            };
        },
        None => {},
    }
}

fn apply_i64_field(updates: &JsonMap, key: &str, target: &mut i64)
    ensures
        *final(target) == upd_i64(entries_view(updates@), key@, *old(target)),
{
    match entries_get(updates, key) {
        Some(v) => match v.as_i64() {
            Some(x) => {
                *target = x;
            },
            None => {},
        },
        None => {},
    }
}

fn apply_option_i64_field(updates: &JsonMap, key: &str, target: &mut Option<i64>)
    ensures
        *final(target) == upd_opt_i64(entries_view(updates@), key@, *old(target)),
{
    match entries_get(updates, key) {
        Some(v) => {
            *target = v.as_i64();
        },
        None => {},
    }
}

fn apply_option_bool_field(updates: &JsonMap, key: &str, target: &mut Option<bool>)
    ensures
        *final(target) == upd_opt_bool(entries_view(updates@), key@, *old(target)),
{
    match entries_get(updates, key) {
        Some(v) => {
            *target = v.as_bool();
        },
        None => {},
    }
}

fn apply_option_value_field(updates: &JsonMap, key: &str, target: &mut Option<JsonValue>)
    ensures
        opt_json(*final(target)) == upd_opt_json(entries_view(updates@), key@, opt_json(*old(target))),
{
    match entries_get(updates, key) {
        Some(v) => {
            *target = if v.is_null() {
                None
            } else {
                Some(json_clone(v))
            };
        },
        None => {},
    }
}

fn apply_option_location_field(updates: &JsonMap, key: &str, target: &mut Option<TicketLocation>)
    ensures
        opt_location(*final(target)) == upd_opt_location(
            entries_view(updates@),
            key@,
            opt_location(*old(target)),
        ),
{
    match entries_get(updates, key) {
        Some(v) => {
            *target = decode_location(v);
        },
        None => {},
    }
}

fn apply_option_departure_field(updates: &JsonMap, key: &str, target: &mut Option<CommuteDepartureTime>)
    ensures
        *final(target) == upd_opt_departure(entries_view(updates@), key@, *old(target)),
{
    match entries_get(updates, key) {
        Some(v) => {
            *target = decode_departure_time(v);
        },
        None => {},
    }
}

/// Stores every entry of `updates` into `es`, in order.
pub fn insert_all_entries(es: &mut JsonMap, updates: &JsonMap)
    ensures
        entries_view(final(es)@) == insert_all(entries_view(old(es)@), entries_view(updates@)),
{
    let ghost start = entries_view(es@);
    let mut i: usize = 0;
    proof {
        lemma_entries_view(updates@);
        assert(entries_view(updates@).subrange(0, 0) =~= Seq::empty());
    }
    while i < updates.len()
        invariant
            i <= updates.len(),
            entries_view(updates@).len() == updates@.len(),
            forall|j: int|
                0 <= j < updates@.len() ==> #[trigger] entries_view(updates@)[j] == (
                updates@[j].0@,
                updates@[j].1@,
            ),
            entries_view(es@) == insert_all(start, entries_view(updates@).subrange(0, i as int)),
        decreases updates.len() - i,
    {
        let k = updates[i].0.clone();
        let v = json_clone(&updates[i].1);
        let ghost before = entries_view(es@);
        entries_insert(es, k, v);
        proof {
            let u = entries_view(updates@);
            let t = u.subrange(0, i + 1);
            assert(t.subrange(0, t.len() - 1) =~= u.subrange(0, i as int));
            assert(t[t.len() - 1] == u[i as int]);
        }
        i = i + 1;
    }
    proof {
        assert(entries_view(updates@).subrange(0, updates@.len() as int) =~= entries_view(updates@));
    }
}

impl TicketPayload {
    /// Applies a partial update: each field named in `updates` takes the new
    /// value; a generic object payload takes every entry of `updates`.
    pub fn apply_partial_update(&mut self, updates: &JsonMap)
        ensures
            final(self)@ == apply_updates(old(self)@, entries_view(updates@)),
    {
        match self {
            TicketPayload::Commute {
                title,
                label,
                origin,
                origin_location,
                destination,
                destination_location,
                departure_time,
                scheduled_time_iso,
                rrule,
                deadline,
                days,
                related_event_id,
                live,
                minutes_remaining,
                directions,
                completed,
            } => {
                apply_string_field(updates, "title", title);
                apply_option_string_field(updates, "label", label);
                apply_string_field(updates, "origin", origin);
                apply_option_location_field(updates, "origin_location", origin_location);
                apply_string_field(updates, "destination", destination);
                apply_option_location_field(updates, "destination_location", destination_location);
                apply_option_departure_field(updates, "departure_time", departure_time);
                apply_option_string_field(updates, "scheduled_time_iso", scheduled_time_iso);
                apply_option_string_field(updates, "rrule", rrule);
                apply_option_string_field(updates, "deadline", deadline);
                apply_option_string_field(updates, "days", days);
                apply_option_string_field(updates, "related_event_id", related_event_id);
                apply_option_bool_field(updates, "live", live);
                apply_option_i64_field(updates, "minutes_remaining", minutes_remaining);
                apply_option_value_field(updates, "directions", directions);
                apply_option_bool_field(updates, "completed", completed);
            },
            TicketPayload::Countdown { title, duration_minutes, expires_at } => {
                apply_string_field(updates, "title", title);
                apply_i64_field(updates, "duration_minutes", duration_minutes);
                apply_option_string_field(updates, "expires_at", expires_at);
            },
            TicketPayload::Event {
                title,
                scheduled_time_iso,
                rrule,
                duration_minutes,
                location,
                completed,
            } => {
                apply_string_field(updates, "title", title);
                apply_option_string_field(updates, "scheduled_time_iso", scheduled_time_iso);
                apply_option_string_field(updates, "rrule", rrule);
                apply_option_i64_field(updates, "duration_minutes", duration_minutes);
                apply_option_location_field(updates, "location", location);
                apply_option_bool_field(updates, "completed", completed);
            },
            TicketPayload::Habit { title, scheduled_time_iso, rrule, completed } => {
                apply_string_field(updates, "title", title);
                apply_option_string_field(updates, "scheduled_time_iso", scheduled_time_iso);
                apply_option_string_field(updates, "rrule", rrule);
                apply_option_bool_field(updates, "completed", completed);
            },
            TicketPayload::Task { title, scheduled_time_iso, rrule, duration_minutes, completed } => {
                apply_string_field(updates, "title", title);
                apply_option_string_field(updates, "scheduled_time_iso", scheduled_time_iso);
                apply_option_string_field(updates, "rrule", rrule);
                apply_option_i64_field(updates, "duration_minutes", duration_minutes);
                apply_option_bool_field(updates, "completed", completed);
            },
            TicketPayload::Generic(value) => {
                match value {
                    JsonValue::Object(es) => {
                        insert_all_entries(es, updates);
                    },
                    _ => {},
                }
            },
        }
    }

    /// Whether applying `updates` would leave the payload as it is.
    pub fn matches_partial_update(&self, updates: &JsonMap) -> (r: bool)
        ensures
            r == (payload_norm(apply_updates(self@, entries_view(updates@))) == payload_norm(self@)),
    {
        let mut projected = self.copy();
        projected.apply_partial_update(updates);
        projected.same_as(self)
    }
}

} // verus!
