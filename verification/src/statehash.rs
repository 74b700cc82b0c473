//! The fingerprint of the stack that client and server compare: tickets
//! ordered by id, written as compact JSON, hashed with SHA-256.
use vstd::prelude::*;
use crate::agent::Error;
use crate::encode::{
    type_wire_name, status_name, ticket_type_name, ticket_status_name, opt_str_json, opt_bool_json, opt_int_json,
    opt_value_json, coordinate_json, text_json, opt_text_json, opt_flag_json, opt_number_json, opt_json_value,
    coordinate,
};
use crate::find::{first_match, is_first, lemma_first_match_at, lemma_first_match_none, lemma_first_match_exists};
use crate::json::{JsonValue, JsonV, jv_from_i64};
use crate::jsontext::{compact_json, json_to_text};
use crate::text::{lemma_text_lt_irreflexive, lemma_text_lt_total, lemma_text_lt_transitive, text_lt, text_less, concat2, concat3, concat4, owned, join_by, join_strings, texts};
use crate::ticket::{Ticket, TicketPayload, PayloadV, TicketLocation, LocationV, CommuteDepartureTime, opt_text, opt_json};
use sha2::Digest;

verus! {

/// The lower-case hexadecimal SHA-256 digest of a text's UTF-8 bytes.
pub uninterp spec fn sha256_hex(s: Seq<char>) -> Seq<char>;

/// Hashes a text's UTF-8 bytes with `sha2::Sha256` and writes the digest
/// as lower-case hexadecimal (`format!("{:x}", ..)`): 64 characters. The
/// contract names the digest: it depends on the text alone.
#[verifier::external_body]
pub(crate) fn sha256_hex_of(s: &str) -> (r: String)
    ensures
        r@ == sha256_hex(s@),
        r@.len() == 64,
        forall|i: int| 0 <= i < 64 ==> ('0' <= #[trigger] r@[i] <= '9') || ('a' <= r@[i] <= 'f'),
{
    let mut hasher = sha2::Sha256::new();
    hasher.update(s.as_bytes());
    format!("{:x}", hasher.finalize())
}

/// Position `k` of `t` holds a ticket whose id sorts after `x`'s.
pub open spec fn sorts_after(t: Seq<Ticket>, x: Ticket) -> spec_fn(int) -> bool {
    |k: int| text_lt(x.id@, t[k].id@)
}

/// `x` inserted into `t` before the first ticket whose id sorts after it.
pub open spec fn insert_by_id(t: Seq<Ticket>, x: Ticket) -> Seq<Ticket> {
    match first_match(t.len() as int, sorts_after(t, x)) {
        Some(k) => t.take(k) + seq![x] + t.skip(k),
        None => t.push(x),
    }
}

/// The tickets ordered by id, those with equal ids in their original order
/// (a stable sort).
pub open spec fn sort_by_id(s: Seq<Ticket>) -> Seq<Ticket>
    decreases s.len(),
{
    if s.len() == 0 {
        Seq::empty()
    } else {
        insert_by_id(sort_by_id(s.drop_last()), s.last())
    }
}

/// The ticket each index names.
pub open spec fn pick(ts: Seq<Ticket>) -> spec_fn(usize) -> Ticket {
    |i: usize| ts[i as int]
}

/// Inserts the index `x` into indices ordered by their tickets' ids, after
/// those whose id does not sort after `x`'s.
#[verifier::loop_isolation(false)]
fn insert_index(idx: &mut Vec<usize>, tasks: &[Ticket], x: usize)
    requires
        x < tasks@.len(),
        forall|k: int| 0 <= k < old(idx)@.len() ==> #[trigger] old(idx)@[k] < tasks@.len(),
    ensures
        final(idx)@.map_values(pick(tasks@)) == insert_by_id(old(idx)@.map_values(pick(tasks@)), tasks@[x as int]),
        forall|k: int| 0 <= k < final(idx)@.len() ==> #[trigger] final(idx)@[k] < tasks@.len(),
        final(idx)@.len() == old(idx)@.len() + 1,
{
    let ghost ts = idx@.map_values(pick(tasks@));
    let ghost xt = tasks@[x as int];
    let ghost pr = sorts_after(ts, xt);
    let ghost before = idx@;
    let mut k: usize = 0;
    while k < idx.len()
        invariant
            before == idx@,
            ts == idx@.map_values(pick(tasks@)),
            xt == tasks@[x as int],
            x < tasks@.len(),
            pr == sorts_after(ts, xt),
            k <= ts.len(),
            forall|j: int| 0 <= j < idx@.len() ==> #[trigger] idx@[j] < tasks@.len(),
            forall|j: int| 0 <= j < k ==> !#[trigger] pr(j),
        decreases ts.len() - k,
    {
        let i = idx[k];
        if text_less(tasks[x].id.as_str(), tasks[i].id.as_str()) {
            proof {
                assert(ts[k as int] == tasks@[i as int]);
                assert(is_first(ts.len() as int, pr, k as int));
                lemma_first_match_at(ts.len() as int, pr, k as int);
            }
            idx.insert(k, x);
            assert(idx@.map_values(pick(tasks@)) =~= ts.take(k as int) + seq![xt] + ts.skip(k as int));
            return;
        }
        assert(ts[k as int] == tasks@[i as int]);
        k = k + 1;
    }
    proof {
        lemma_first_match_none(ts.len() as int, pr);
    }
    idx.push(x);
    assert(idx@.map_values(pick(tasks@)) =~= ts.push(xt));
}

/// The positions of the tickets, ordered by the tickets' ids (stable).
pub fn sorted_indices(tasks: &[Ticket]) -> (r: Vec<usize>)
    ensures
        r@.map_values(pick(tasks@)) == sort_by_id(tasks@),
        forall|k: int| 0 <= k < r@.len() ==> #[trigger] r@[k] < tasks@.len(),
{
    let mut idx: Vec<usize> = Vec::new();
    let mut i: usize = 0;
    assert(tasks@.take(0) =~= Seq::<Ticket>::empty());
    assert(idx@.map_values(pick(tasks@)) =~= Seq::<Ticket>::empty());
    while i < tasks.len()
        invariant
            i <= tasks@.len(),
            idx@.map_values(pick(tasks@)) == sort_by_id(tasks@.take(i as int)),
            forall|k: int| 0 <= k < idx@.len() ==> #[trigger] idx@[k] < tasks@.len(),
        decreases tasks@.len() - i,
    {
        proof {
            assert(tasks@.take(i + 1).drop_last() =~= tasks@.take(i as int));
            assert(tasks@.take(i + 1).last() == tasks@[i as int]);
        }
        insert_index(&mut idx, tasks, i);
        i = i + 1;
    }
    assert(tasks@.take(tasks@.len() as int) =~= tasks@);
    idx
}

/// Ids never decrease along `s`.
pub open spec fn ids_nondecreasing(s: Seq<Ticket>) -> bool {
    forall|i: int, j: int| 0 <= i < j < s.len() ==> !text_lt(#[trigger] s[j].id@, #[trigger] s[i].id@)
}

/// No two tickets of `s` carry the same id.
pub open spec fn ids_distinct(s: Seq<Ticket>) -> bool {
    forall|i: int, j: int| 0 <= i < j < s.len() ==> #[trigger] s[i].id@ != #[trigger] s[j].id@
}

/// Inserting by id keeps ids in order, adds the ticket to the tickets held,
/// and brings in no other ticket.
proof fn lemma_insert_by_id(t: Seq<Ticket>, x: Ticket)
    requires
        ids_nondecreasing(t),
    ensures
        ids_nondecreasing(insert_by_id(t, x)),
        insert_by_id(t, x).to_multiset() == t.to_multiset().insert(x),
        forall|i: int|
            0 <= i < insert_by_id(t, x).len() ==> #[trigger] insert_by_id(t, x)[i] == x || t.contains(
                insert_by_id(t, x)[i],
            ),
{
    broadcast use vstd::seq_lib::group_to_multiset_ensures;

    let p = sorts_after(t, x);
    let r = insert_by_id(t, x);
    match first_match(t.len() as int, p) {
        Some(k) => {
            assert(is_first(t.len() as int, p, k));
            assert(r =~= t.insert(k, x));
            assert forall|i: int, j: int| 0 <= i < j < r.len() implies !text_lt(#[trigger] r[j].id@, #[trigger] r[i].id@) by {
                if j < k {
                    assert(r[i] == t[i] && r[j] == t[j]);
                } else if j == k {
                    assert(r[i] == t[i] && r[j] == x);
                    assert(!p(i));
                } else if i < k {
                    assert(r[i] == t[i] && r[j] == t[j - 1]);
                } else if i == k {
                    assert(r[i] == x && r[j] == t[j - 1]);
                    assert(p(k));
                    if j - 1 > k {
                        assert(!text_lt(t[j - 1].id@, t[k].id@));
                        lemma_text_lt_total(t[j - 1].id@, t[k].id@);
                        if t[j - 1].id@ != t[k].id@ {
                            lemma_text_lt_transitive(x.id@, t[k].id@, t[j - 1].id@);
                        }
                    }
                    if text_lt(t[j - 1].id@, x.id@) {
                        lemma_text_lt_transitive(x.id@, t[j - 1].id@, x.id@);
                        lemma_text_lt_irreflexive(x.id@);
                    }
                } else {
                    assert(r[i] == t[i - 1] && r[j] == t[j - 1]);
                }
            }
            assert forall|i: int| 0 <= i < r.len() implies #[trigger] r[i] == x || t.contains(r[i]) by {
                if i < k {
                    assert(r[i] == t[i]);
                } else if i > k {
                    assert(r[i] == t[i - 1]);
                }
            }
        },
        None => {
            assert forall|j: int| 0 <= j < t.len() implies !#[trigger] p(j) by {
                if p(j) {
                    lemma_first_match_exists(t.len() as int, p, j);
                }
            }
            assert forall|i: int, j: int| 0 <= i < j < r.len() implies !text_lt(#[trigger] r[j].id@, #[trigger] r[i].id@) by {
                if j == t.len() {
                    assert(!p(i));
                } else {
                    assert(r[i] == t[i] && r[j] == t[j]);
                }
            }
            assert forall|i: int| 0 <= i < r.len() implies #[trigger] r[i] == x || t.contains(r[i]) by {
                if i < t.len() {
                    assert(r[i] == t[i]);
                }
            }
        },
    }
}

/// Sorting by id orders the ids, holds the same tickets, and brings in no
/// other ticket.
proof fn lemma_sort_by_id(s: Seq<Ticket>)
    ensures
        ids_nondecreasing(sort_by_id(s)),
        sort_by_id(s).to_multiset() == s.to_multiset(),
        forall|i: int| 0 <= i < sort_by_id(s).len() ==> s.contains(#[trigger] sort_by_id(s)[i]),
    decreases s.len(),
{
    broadcast use vstd::seq_lib::group_to_multiset_ensures;

    if s.len() == 0 {
        assert(sort_by_id(s) =~= Seq::<Ticket>::empty());
    } else {
        let init = s.drop_last();
        lemma_sort_by_id(init);
        lemma_insert_by_id(sort_by_id(init), s.last());
        assert(s =~= init.push(s.last()));
        let r = sort_by_id(s);
        assert forall|i: int| 0 <= i < r.len() implies s.contains(#[trigger] r[i]) by {
            if r[i] != s.last() {
                let j = choose|j: int| 0 <= j < sort_by_id(init).len() && sort_by_id(init)[j] == r[i];
                let m = choose|m: int| 0 <= m < init.len() && init[m] == sort_by_id(init)[j];
                assert(s[m] == r[i]);
            } else {
                assert(s[s.len() - 1] == r[i]);
            }
        }
    }
}

/// Sorting tickets with distinct ids keeps the ids distinct.
proof fn lemma_sort_by_id_distinct(s: Seq<Ticket>)
    requires
        ids_distinct(s),
    ensures
        ids_distinct(sort_by_id(s)),
    decreases s.len(),
{
    if s.len() > 0 {
        let init = s.drop_last();
        let x = s.last();
        assert(ids_distinct(init));
        lemma_sort_by_id_distinct(init);
        lemma_sort_by_id(init);
        let t = sort_by_id(init);
        lemma_insert_by_id(t, x);
        let r = sort_by_id(s);
        assert forall|i: int| 0 <= i < t.len() implies #[trigger] t[i].id@ != x.id@ by {
            let m = choose|m: int| 0 <= m < init.len() && init[m] == t[i];
            assert(s[m] == t[i]);
        }
        assert forall|i: int, j: int| 0 <= i < j < r.len() implies #[trigger] r[i].id@ != #[trigger] r[j].id@ by {
            match first_match(t.len() as int, sorts_after(t, x)) {
                Some(k) => {
                    if j < k {
                        assert(r[i] == t[i] && r[j] == t[j]);
                    } else if j == k {
                        assert(r[i] == t[i] && r[j] == x);
                    } else if i < k {
                        assert(r[i] == t[i] && r[j] == t[j - 1]);
                    } else if i == k {
                        assert(r[i] == x && r[j] == t[j - 1]);
                    } else {
                        assert(r[i] == t[i - 1] && r[j] == t[j - 1]);
                    }
                },
                None => {
                    if j == t.len() {
                        assert(r[i] == t[i] && r[j] == x);
                    } else {
                        assert(r[i] == t[i] && r[j] == t[j]);
                    }
                },
            }
        }
    }
}

/// Two id-ordered sequences holding the same tickets, the first with
/// distinct ids, are the same sequence.
proof fn lemma_sorted_unique(a: Seq<Ticket>, b: Seq<Ticket>)
    requires
        ids_nondecreasing(a),
        ids_distinct(a),
        ids_nondecreasing(b),
        a.to_multiset() == b.to_multiset(),
    ensures
        a == b,
    decreases a.len(),
{
    broadcast use vstd::seq_lib::group_to_multiset_ensures;

    a.to_multiset_ensures();
    b.to_multiset_ensures();
    if a.len() == 0 {
        assert(b.len() == 0);
        assert(a =~= b);
    } else {
        assert(b.len() == a.len());
        assert(a.contains(a[0]));
        assert(a.to_multiset().count(a[0]) > 0);
        assert(b.contains(a[0]));
        assert(b.contains(b[0]));
        assert(b.to_multiset().count(b[0]) > 0);
        assert(a.contains(b[0]));
        if a[0] != b[0] {
            let i = choose|i: int| 0 <= i < a.len() && a[i] == b[0];
            let j = choose|j: int| 0 <= j < b.len() && b[j] == a[0];
            assert(i > 0);
            assert(a[0].id@ != a[i].id@);
            assert(!text_lt(a[i].id@, a[0].id@));
            lemma_text_lt_total(a[0].id@, a[i].id@);
            if j > 0 {
                assert(!text_lt(b[j].id@, b[0].id@));
            }
            lemma_text_lt_irreflexive(a[0].id@);
        }
        assert(a.remove(0) =~= a.drop_first());
        assert(b.remove(0) =~= b.drop_first());
        assert(a.remove(0).to_multiset() == a.to_multiset().remove(a[0]));
        assert(b.remove(0).to_multiset() == b.to_multiset().remove(b[0]));
        assert(ids_nondecreasing(a.drop_first()));
        assert(ids_distinct(a.drop_first()));
        assert(ids_nondecreasing(b.drop_first()));
        lemma_sorted_unique(a.drop_first(), b.drop_first());
        assert(a =~= seq![a[0]] + a.drop_first());
        assert(b =~= seq![b[0]] + b.drop_first());
    }
}

/// The fingerprint does not depend on the order of the tickets: two lists
/// holding the same tickets, with distinct ids, give the same hashed text.
pub proof fn lemma_state_text_order_independent(s1: Seq<Ticket>, s2: Seq<Ticket>)
    requires
        s1.to_multiset() == s2.to_multiset(),
        ids_distinct(s1),
    ensures
        state_text(s1) == state_text(s2),
{
    lemma_sort_by_id(s1);
    lemma_sort_by_id(s2);
    lemma_sort_by_id_distinct(s1);
    lemma_sorted_unique(sort_by_id(s1), sort_by_id(s2));
}

/// A field as serde writes a struct's field: the key, quoted, a colon, and
/// the value's text.
pub open spec fn field_text(k: Seq<char>, v: Seq<char>) -> Seq<char> {
    "\""@ + k + "\":"@ + v
}

/// A JSON value's field (see `field_text`).
pub open spec fn json_field(k: Seq<char>, v: JsonV) -> Seq<char> {
    field_text(k, compact_json(v))
}

/// A struct as serde writes it: its fields in declaration order, compactly.
pub open spec fn struct_text(fields: Seq<Seq<char>>) -> Seq<char> {
    "{"@ + join_by(fields, ","@) + "}"@
}

/// A location as its derived serialisation writes it: the
/// `location_type` tag, then the variant's fields in declaration order.
pub open spec fn location_text(l: LocationV) -> Seq<char> {
    match l {
        LocationV::SavedLocation { location_id, label } => struct_text(
            seq![
                json_field("location_type"@, JsonV::Str("saved_location"@)),
                json_field("location_id"@, JsonV::Str(location_id)),
                json_field("label"@, opt_str_json(label)),
            ],
        ),
        LocationV::Coordinates { latitude, longitude, label } => struct_text(
            seq![
                json_field("location_type"@, JsonV::Str("coordinates"@)),
                json_field("latitude"@, coordinate_json(latitude)),
                json_field("longitude"@, coordinate_json(longitude)),
                json_field("label"@, opt_str_json(label)),
            ],
        ),
        LocationV::AddressText { address, label } => struct_text(
            seq![
                json_field("location_type"@, JsonV::Str("address_text"@)),
                json_field("address"@, JsonV::Str(address)),
                json_field("label"@, opt_str_json(label)),
            ],
        ),
        LocationV::PlaceId { place_id, label } => struct_text(
            seq![
                json_field("location_type"@, JsonV::Str("place_id"@)),
                json_field("place_id"@, JsonV::Str(place_id)),
                json_field("label"@, opt_str_json(label)),
            ],
        ),
        LocationV::CurrentPosition { label } => struct_text(
            seq![
                json_field("location_type"@, JsonV::Str("current_position"@)),
                json_field("label"@, opt_str_json(label)),
            ],
        ),
    }
}

/// An optional location: its text, or `null`.
pub open spec fn opt_location_text(o: Option<LocationV>) -> Seq<char> {
    match o {
        Some(l) => location_text(l),
        None => compact_json(JsonV::Null),
    }
}

/// An optional departure rule: the `departure_type` tag then its fields,
/// or `null`.
pub open spec fn opt_departure_text(o: Option<CommuteDepartureTime>) -> Seq<char> {
    match o {
        Some(CommuteDepartureTime::RelativeToArrival { buffer_minutes }) => struct_text(
            seq![
                json_field("departure_type"@, JsonV::Str("relative_to_arrival"@)),
                json_field("buffer_minutes"@, jv_from_i64(buffer_minutes)),
            ],
        ),
        None => compact_json(JsonV::Null),
    }
}

/// A payload as its derived serialisation writes it: a typed payload's
/// fields in declaration order; a generic payload as serde writes its value.
pub open spec fn payload_text(p: PayloadV) -> Seq<char> {
    match p {
        PayloadV::Commute {
            title,
            label,
            origin,
            origin_location,
            destination,
            destination_location,
            departure_time,
            scheduled_time_iso,
            rrule,
            deadline,
            days,
            related_event_id,
            live,
            minutes_remaining,
            directions,
            completed,
        } => struct_text(
            seq![
                json_field("title"@, JsonV::Str(title)),
                json_field("label"@, opt_str_json(label)),
                json_field("origin"@, JsonV::Str(origin)),
                field_text("origin_location"@, opt_location_text(origin_location)),
                json_field("destination"@, JsonV::Str(destination)),
                field_text("destination_location"@, opt_location_text(destination_location)),
                field_text("departure_time"@, opt_departure_text(departure_time)),
                json_field("scheduled_time_iso"@, opt_str_json(scheduled_time_iso)),
                json_field("rrule"@, opt_str_json(rrule)),
                json_field("deadline"@, opt_str_json(deadline)),
                json_field("days"@, opt_str_json(days)),
                json_field("related_event_id"@, opt_str_json(related_event_id)),
                json_field("live"@, opt_bool_json(live)),
                json_field("minutes_remaining"@, opt_int_json(minutes_remaining)),
                json_field("directions"@, opt_value_json(directions)),
                json_field("completed"@, opt_bool_json(completed)),
            ],
        ),
        PayloadV::Countdown { title, duration_minutes, expires_at } => struct_text(
            seq![
                json_field("title"@, JsonV::Str(title)),
                json_field("duration_minutes"@, jv_from_i64(duration_minutes)),
                json_field("expires_at"@, opt_str_json(expires_at)),
            ],
        ),
        PayloadV::Event { title, scheduled_time_iso, rrule, duration_minutes, location, completed } => struct_text(
            seq![
                json_field("title"@, JsonV::Str(title)),
                json_field("scheduled_time_iso"@, opt_str_json(scheduled_time_iso)),
                json_field("rrule"@, opt_str_json(rrule)),
                json_field("duration_minutes"@, opt_int_json(duration_minutes)),
                field_text("location"@, opt_location_text(location)),
                json_field("completed"@, opt_bool_json(completed)),
            ],
        ),
        PayloadV::Habit { title, scheduled_time_iso, rrule, completed } => struct_text(
            seq![
                json_field("title"@, JsonV::Str(title)),
                json_field("scheduled_time_iso"@, opt_str_json(scheduled_time_iso)),
                json_field("rrule"@, opt_str_json(rrule)),
                json_field("completed"@, opt_bool_json(completed)),
            ],
        ),
        PayloadV::Task { title, scheduled_time_iso, rrule, duration_minutes, completed } => struct_text(
            seq![
                json_field("title"@, JsonV::Str(title)),
                json_field("scheduled_time_iso"@, opt_str_json(scheduled_time_iso)),
                json_field("rrule"@, opt_str_json(rrule)),
                json_field("duration_minutes"@, opt_int_json(duration_minutes)),
                json_field("completed"@, opt_bool_json(completed)),
            ],
        ),
        PayloadV::Generic(v) => compact_json(v),
    }
}

/// Two tickets the fingerprint cannot tell apart: the same id, type,
/// payload, status and notes (titles and timestamps are not hashed).
pub open spec fn hashed_alike(a: Ticket, b: Ticket) -> bool {
    &&& a.id@ == b.id@
    &&& a.ticket_type == b.ticket_type
    &&& a.payload@ == b.payload@
    &&& a.status == b.status
    &&& opt_text(a.notes) == opt_text(b.notes)
}

/// Two lists of tickets alike position by position.
pub open spec fn all_hashed_alike(a: Seq<Ticket>, b: Seq<Ticket>) -> bool {
    a.len() == b.len() && forall|i: int| 0 <= i < a.len() ==> hashed_alike(#[trigger] a[i], b[i])
}

/// Inserting alike tickets into alike lists gives alike lists.
proof fn lemma_insert_alike(t1: Seq<Ticket>, x1: Ticket, t2: Seq<Ticket>, x2: Ticket)
    requires
        all_hashed_alike(t1, t2),
        hashed_alike(x1, x2),
    ensures
        all_hashed_alike(insert_by_id(t1, x1), insert_by_id(t2, x2)),
{
    let p1 = sorts_after(t1, x1);
    let p2 = sorts_after(t2, x2);
    let n = t1.len() as int;
    assert forall|k: int| 0 <= k < n implies #[trigger] p1(k) == p2(k) by {
        assert(hashed_alike(t1[k], t2[k]));
    }
    match first_match(n, p1) {
        Some(k) => {
            lemma_first_match_at(n, p1, k);
            assert forall|j: int| 0 <= j < k implies !#[trigger] p2(j) by {
                assert(!p1(j));
            }
            assert(is_first(n, p2, k));
            lemma_first_match_at(n, p2, k);
        },
        None => {
            assert forall|j: int| 0 <= j < n implies !#[trigger] p2(j) by {
                if p1(j) {
                    lemma_first_match_exists(n, p1, j);
                }
            }
            lemma_first_match_none(n, p2);
        },
    }
    let r1 = insert_by_id(t1, x1);
    let r2 = insert_by_id(t2, x2);
    match first_match(t1.len() as int, sorts_after(t1, x1)) {
        Some(k) => {
            assert forall|i: int| 0 <= i < r1.len() implies hashed_alike(#[trigger] r1[i], r2[i]) by {
                if i < k {
                    assert(r1[i] == t1[i] && r2[i] == t2[i]);
                } else if i > k {
                    assert(r1[i] == t1[i - 1] && r2[i] == t2[i - 1]);
                }
            }
        },
        None => {
            assert forall|i: int| 0 <= i < r1.len() implies hashed_alike(#[trigger] r1[i], r2[i]) by {
                if i < t1.len() {
                    assert(r1[i] == t1[i] && r2[i] == t2[i]);
                }
            }
        },
    }
}

/// Sorting alike lists gives alike lists.
proof fn lemma_sort_alike(s1: Seq<Ticket>, s2: Seq<Ticket>)
    requires
        all_hashed_alike(s1, s2),
    ensures
        all_hashed_alike(sort_by_id(s1), sort_by_id(s2)),
    decreases s1.len(),
{
    if s1.len() > 0 {
        assert(all_hashed_alike(s1.drop_last(), s2.drop_last())) by {
            assert forall|i: int| 0 <= i < s1.drop_last().len() implies hashed_alike(
                #[trigger] s1.drop_last()[i],
                s2.drop_last()[i],
            ) by {
                assert(hashed_alike(s1[i], s2[i]));
            }
        }
        lemma_sort_alike(s1.drop_last(), s2.drop_last());
        assert(hashed_alike(s1[s1.len() - 1], s2[s2.len() - 1]));
        lemma_insert_alike(sort_by_id(s1.drop_last()), s1.last(), sort_by_id(s2.drop_last()), s2.last());
    }
}

/// The fingerprint reads no title and no timestamp: tickets that differ
/// only there give the same hashed text.
pub proof fn lemma_state_text_ignores_stamps(s1: Seq<Ticket>, s2: Seq<Ticket>)
    requires
        all_hashed_alike(s1, s2),
    ensures
        state_text(s1) == state_text(s2),
{
    lemma_sort_alike(s1, s2);
    let a = sort_by_id(s1);
    let b = sort_by_id(s2);
    assert forall|i: int| 0 <= i < a.len() implies #[trigger] item_text(a[i]) == item_text(b[i]) by {
        assert(hashed_alike(a[i], b[i]));
    }
    assert(a.map_values(|t: Ticket| item_text(t)) =~= b.map_values(|t: Ticket| item_text(t)));
}

/// Writes a field whose value is already written.
fn write_field(k: &str, v: &str) -> (r: String)
    ensures
        r@ == field_text(k@, v@),
{
    concat3("\"", k, concat2("\":", v).as_str())
}

/// Writes a field holding a JSON value.
fn write_json_field(k: &str, v: &JsonValue) -> (r: String)
    ensures
        r@ == json_field(k@, v@),
{
    let t = json_to_text(v);
    write_field(k, t.as_str())
}

/// Writes a struct from its written fields.
fn write_struct(fields: &Vec<String>) -> (r: String)
    ensures
        r@ == struct_text(texts(fields@)),
{
    let body = join_strings(fields, ",");
    concat3("{", body.as_str(), "}")
}

/// Writes an optional location (see `opt_location_text`).
fn write_opt_location(o: &Option<TicketLocation>) -> (r: String)
    ensures
        r@ == opt_location_text(crate::ticket::opt_location(*o)),
{
    let mut f: Vec<String> = Vec::new();
    match o {
        None => json_to_text(&JsonValue::Null),
        Some(TicketLocation::SavedLocation { location_id, label }) => {
            f.push(write_json_field("location_type", &JsonValue::text("saved_location")));
            f.push(write_json_field("location_id", &text_json(location_id)));
            f.push(write_json_field("label", &opt_text_json(label)));
            let r = write_struct(&f);
            assert(texts(f@) =~= seq![f@[0]@, f@[1]@, f@[2]@]);
            r
        },
        Some(TicketLocation::Coordinates { latitude, longitude, label }) => {
            f.push(write_json_field("location_type", &JsonValue::text("coordinates")));
            f.push(write_json_field("latitude", &coordinate(latitude)));
            f.push(write_json_field("longitude", &coordinate(longitude)));
            f.push(write_json_field("label", &opt_text_json(label)));
            let r = write_struct(&f);
            assert(texts(f@) =~= seq![f@[0]@, f@[1]@, f@[2]@, f@[3]@]);
            r
        },
        Some(TicketLocation::AddressText { address, label }) => {
            f.push(write_json_field("location_type", &JsonValue::text("address_text")));
            f.push(write_json_field("address", &text_json(address)));
            f.push(write_json_field("label", &opt_text_json(label)));
            let r = write_struct(&f);
            assert(texts(f@) =~= seq![f@[0]@, f@[1]@, f@[2]@]);
            r
        },
        Some(TicketLocation::PlaceId { place_id, label }) => {
            f.push(write_json_field("location_type", &JsonValue::text("place_id")));
            f.push(write_json_field("place_id", &text_json(place_id)));
            f.push(write_json_field("label", &opt_text_json(label)));
            let r = write_struct(&f);
            assert(texts(f@) =~= seq![f@[0]@, f@[1]@, f@[2]@]);
            r
        },
        Some(TicketLocation::CurrentPosition { label }) => {
            f.push(write_json_field("location_type", &JsonValue::text("current_position")));
            f.push(write_json_field("label", &opt_text_json(label)));
            let r = write_struct(&f);
            assert(texts(f@) =~= seq![f@[0]@, f@[1]@]);
            r
        },
    }
}

/// Writes an optional departure rule (see `opt_departure_text`).
fn write_opt_departure(o: Option<CommuteDepartureTime>) -> (r: String)
    ensures
        r@ == opt_departure_text(o),
{
    match o {
        None => json_to_text(&JsonValue::Null),
        Some(CommuteDepartureTime::RelativeToArrival { buffer_minutes }) => {
            let mut f: Vec<String> = Vec::new();
            f.push(write_json_field("departure_type", &JsonValue::text("relative_to_arrival")));
            f.push(write_json_field("buffer_minutes", &JsonValue::from_i64(buffer_minutes)));
            let r = write_struct(&f);
            assert(texts(f@) =~= seq![f@[0]@, f@[1]@]);
            r
        },
    }
}

/// Writes a payload as its derived serialisation does (see `payload_text`).
#[verifier::rlimit(40)]
fn write_payload(p: &TicketPayload) -> (r: String)
    ensures
        r@ == payload_text(p@),
{
    let mut f: Vec<String> = Vec::new();
    match p {
        TicketPayload::Commute {
            title,
            label,
            origin,
            origin_location,
            destination,
            destination_location,
            departure_time,
            scheduled_time_iso,
            rrule,
            deadline,
            days,
            related_event_id,
            live,
            minutes_remaining,
            directions,
            completed,
        } => {
            f.push(write_json_field("title", &text_json(title)));
            f.push(write_json_field("label", &opt_text_json(label)));
            f.push(write_json_field("origin", &text_json(origin)));
            let ol = write_opt_location(origin_location);
            f.push(write_field("origin_location", ol.as_str()));
            f.push(write_json_field("destination", &text_json(destination)));
            let dl = write_opt_location(destination_location);
            f.push(write_field("destination_location", dl.as_str()));
            let dt = write_opt_departure(*departure_time);
            f.push(write_field("departure_time", dt.as_str()));
            f.push(write_json_field("scheduled_time_iso", &opt_text_json(scheduled_time_iso)));
            f.push(write_json_field("rrule", &opt_text_json(rrule)));
            f.push(write_json_field("deadline", &opt_text_json(deadline)));
            f.push(write_json_field("days", &opt_text_json(days)));
            f.push(write_json_field("related_event_id", &opt_text_json(related_event_id)));
            f.push(write_json_field("live", &opt_flag_json(*live)));
            f.push(write_json_field("minutes_remaining", &opt_number_json(*minutes_remaining)));
            f.push(write_json_field("directions", &opt_json_value(directions)));
            f.push(write_json_field("completed", &opt_flag_json(*completed)));
            let r = write_struct(&f);
            assert(texts(f@) =~= seq![
                f@[0]@, f@[1]@, f@[2]@, f@[3]@, f@[4]@, f@[5]@, f@[6]@, f@[7]@,
                f@[8]@, f@[9]@, f@[10]@, f@[11]@, f@[12]@, f@[13]@, f@[14]@, f@[15]@,
            ]);
            r
        },
        TicketPayload::Countdown { title, duration_minutes, expires_at } => {
            f.push(write_json_field("title", &text_json(title)));
            f.push(write_json_field("duration_minutes", &JsonValue::from_i64(*duration_minutes)));
            f.push(write_json_field("expires_at", &opt_text_json(expires_at)));
            let r = write_struct(&f);
            assert(texts(f@) =~= seq![f@[0]@, f@[1]@, f@[2]@]);
            r
        },
        TicketPayload::Event { title, scheduled_time_iso, rrule, duration_minutes, location, completed } => {
            f.push(write_json_field("title", &text_json(title)));
            f.push(write_json_field("scheduled_time_iso", &opt_text_json(scheduled_time_iso)));
            f.push(write_json_field("rrule", &opt_text_json(rrule)));
            f.push(write_json_field("duration_minutes", &opt_number_json(*duration_minutes)));
            let l = write_opt_location(location);
            f.push(write_field("location", l.as_str()));
            f.push(write_json_field("completed", &opt_flag_json(*completed)));
            let r = write_struct(&f);
            assert(texts(f@) =~= seq![f@[0]@, f@[1]@, f@[2]@, f@[3]@, f@[4]@, f@[5]@]);
            r
        },
        TicketPayload::Habit { title, scheduled_time_iso, rrule, completed } => {
            f.push(write_json_field("title", &text_json(title)));
            f.push(write_json_field("scheduled_time_iso", &opt_text_json(scheduled_time_iso)));
            f.push(write_json_field("rrule", &opt_text_json(rrule)));
            f.push(write_json_field("completed", &opt_flag_json(*completed)));
            let r = write_struct(&f);
            assert(texts(f@) =~= seq![f@[0]@, f@[1]@, f@[2]@, f@[3]@]);
            r
        },
        TicketPayload::Task { title, scheduled_time_iso, rrule, duration_minutes, completed } => {
            f.push(write_json_field("title", &text_json(title)));
            f.push(write_json_field("scheduled_time_iso", &opt_text_json(scheduled_time_iso)));
            f.push(write_json_field("rrule", &opt_text_json(rrule)));
            f.push(write_json_field("duration_minutes", &opt_number_json(*duration_minutes)));
            f.push(write_json_field("completed", &opt_flag_json(*completed)));
            let r = write_struct(&f);
            assert(texts(f@) =~= seq![f@[0]@, f@[1]@, f@[2]@, f@[3]@, f@[4]@]);
            r
        },
        TicketPayload::Generic(v) => json_to_text(v),
    }
}

/// One ticket as the fingerprint writes it: id, type, payload, status and,
/// when it has them, its notes, in that order, compactly.
pub open spec fn item_text(t: Ticket) -> Seq<char> {
    "{\"id\":"@ + compact_json(JsonV::Str(t.id@)) + ",\"type\":"@ + compact_json(
        JsonV::Str(type_wire_name(t.ticket_type)),
    ) + ",\"payload\":"@ + payload_text(t.payload@) + ",\"status\":"@ + compact_json(
        JsonV::Str(status_name(t.status)),
    ) + match t.notes {
        Some(n) => ",\"notes\":"@ + compact_json(JsonV::Str(n@)),
        None => Seq::empty(),
    } + "}"@
}

/// The text the fingerprint hashes: the tickets ordered by id, as a JSON array.
pub open spec fn state_text(ts: Seq<Ticket>) -> Seq<char> {
    "["@ + join_by(sort_by_id(ts).map_values(|t: Ticket| item_text(t)), ","@) + "]"@
}

/// One ticket as the fingerprint writes it.
fn write_item(t: &Ticket) -> (r: String)
    ensures
        r@ == item_text(*t),
{
    let id = json_to_text(&JsonValue::Str(t.id.clone()));
    let ty = json_to_text(&JsonValue::text(ticket_type_name(t.ticket_type)));
    let payload = write_payload(&t.payload);
    let status = json_to_text(&JsonValue::text(ticket_status_name(t.status)));
    let notes = match &t.notes {
        Some(n) => {
            let nt = json_to_text(&JsonValue::Str(n.clone()));
            concat2(",\"notes\":", nt.as_str())
        },
        None => String::new(),
    };
    let head = concat4("{\"id\":", id.as_str(), ",\"type\":", ty.as_str());
    let mid = concat4(",\"payload\":", payload.as_str(), ",\"status\":", status.as_str());
    let r = concat4(head.as_str(), mid.as_str(), notes.as_str(), "}");
    assert(r@ =~= item_text(*t));
    r
}

/// The fingerprint of the stack: the SHA-256 digest, in lower-case
/// hexadecimal, of the tickets ordered by id and written as compact JSON
/// (id, type, payload, status, then notes where present).
pub fn calculate_state_hash(tasks: &[Ticket]) -> (r: Result<String, Error>)
    ensures
        r matches Ok(h) && h@ == sha256_hex(state_text(tasks@)) && h@.len() == 64 && forall|i: int|
            0 <= i < 64 ==> ('0' <= #[trigger] h@[i] <= '9') || ('a' <= h@[i] <= 'f'),
{
    let idx = sorted_indices(tasks);
    let ghost sorted = sort_by_id(tasks@);
    let mut items: Vec<String> = Vec::new();
    let mut k: usize = 0;
    while k < idx.len()
        invariant
            idx@.map_values(pick(tasks@)) == sorted,
            sorted == sort_by_id(tasks@),
            forall|j: int| 0 <= j < idx@.len() ==> #[trigger] idx@[j] < tasks@.len(),
            k <= idx@.len(),
            items@.len() == k,
            forall|j: int| 0 <= j < k ==> #[trigger] items@[j]@ == item_text(sorted[j]),
        decreases idx@.len() - k,
    {
        let i = idx[k];
        assert(sorted[k as int] == tasks@[i as int]);
        items.push(write_item(&tasks[i]));
        k = k + 1;
    }
    assert(texts(items@) =~= sorted.map_values(|t: Ticket| item_text(t)));
    let body = join_strings(&items, ",");
    let text = concat2(concat2("[", body.as_str()).as_str(), "]");
    Ok(sha256_hex_of(text.as_str()))
}

} // verus!
