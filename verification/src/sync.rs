//! Offline-first synchronisation: local actions wait until the server's state
//! confirms them, and the stack shown is the server's state with the waiting
//! actions replayed on top.
use vstd::prelude::*;
use crate::json::{JsonValue, JsonV, entries_view, keys_sorted, obj_get, jv_get_str};
use crate::text::{str_eq, to_lowercase, to_uppercase, unicode_lowercase, unicode_uppercase};
use crate::ticket::{
    Ticket, TicketV, TicketType, TicketStatus, TicketPayload, PayloadV, opt_text, title_of, payload_norm,
    clone_opt_text,
};
use crate::update::{insert_all, insert_all_entries, lemma_insert_all_get, lemma_last_for_sorted};
use crate::clock::{utc_now, UtcTimestamp};

verus! {

/// The kind of a sync action.
#[derive(Clone, Copy, Debug, PartialEq, Eq, Structural)]
pub enum SyncActionType {
    Create,
    Update,
    Delete,
}

/// A change made locally, waiting to be confirmed by the server.
#[derive(Debug)]
pub struct SyncAction {
    pub action_id: String,
    pub action_type: SyncActionType,
    pub entity_id: String,
    pub entity_type: String,
    pub status: Option<TicketStatus>,
    pub payload: Option<TicketPayload>,
    pub notes: Option<String>,
    pub timestamp: String,
}

/// Some ticket of `base` carries the id `id`.
pub open spec fn has_id(base: Seq<Ticket>, id: Seq<char>) -> bool {
    exists|i: int| 0 <= i < base.len() && #[trigger] base[i].id@ == id
}

/// `i` is the first position of `base` whose ticket carries the id `id`.
pub open spec fn is_first_with_id(base: Seq<Ticket>, id: Seq<char>, i: int) -> bool {
    0 <= i < base.len() && base[i].id@ == id && forall|j: int| 0 <= j < i ==> #[trigger] base[j].id@ != id
}

/// Empty notes count as no notes.
pub open spec fn normalized_notes(n: Option<Seq<char>>) -> Option<Seq<char>> {
    match n {
        Some(t) => if t.len() == 0 {
            None
        } else {
            Some(t)
        },
        None => None,
    }
}

/// The ticket already shows everything the update asks for.
pub open spec fn update_confirmed(a: SyncAction, t: Ticket) -> bool {
    &&& match a.status {
        Some(s) => s == t.status,
        None => true,
    }
    &&& match a.payload {
        Some(p) => payload_norm(p@) == payload_norm(t.payload@),
        None => true,
    }
    &&& match a.notes {
        Some(n) => normalized_notes(Some(n@)) == normalized_notes(opt_text(t.notes)),
        None => true,
    }
}

/// Whether a local action still waits for the server: a creation until its
/// ticket exists, a deletion while its ticket exists, an update until the
/// first ticket with its id shows it (or while no such ticket exists yet).
pub open spec fn still_pending(base: Seq<Ticket>, a: SyncAction) -> bool {
    match a.action_type {
        SyncActionType::Create => !has_id(base, a.entity_id@),
        SyncActionType::Update => if has_id(base, a.entity_id@) {
            let i = choose|i: int| is_first_with_id(base, a.entity_id@, i);
            !update_confirmed(a, base[i])
        } else {
            true
        },
        SyncActionType::Delete => has_id(base, a.entity_id@),
    }
}

/// The position of the first ticket with id `id`.
pub fn find_ticket(base: &[Ticket], id: &str) -> (r: Option<usize>)
    ensures
        match r {
            Some(i) => is_first_with_id(base@, id@, i as int),
            None => !has_id(base@, id@),
        },
{
    let mut i: usize = 0;
    while i < base.len()
        invariant
            i <= base.len(),
            forall|j: int| 0 <= j < i ==> #[trigger] base@[j].id@ != id@,
        decreases base.len() - i,
    {
        if str_eq(base[i].id.as_str(), id) {
            return Some(i);
        }
        i = i + 1;
    }
    None
}

pub proof fn lemma_first_with_id_unique(base: Seq<Ticket>, id: Seq<char>, i: int, j: int)
    requires
        is_first_with_id(base, id, i),
        is_first_with_id(base, id, j),
    ensures
        i == j,
{
    if i < j {
        assert(base[i].id@ != id);
    } else if j < i {
        assert(base[j].id@ != id);
    }
}

/// Whether the ticket shows everything the update asks for.
fn update_is_confirmed(a: &SyncAction, t: &Ticket) -> (r: bool)
    ensures
        r == update_confirmed(*a, *t),
{
    let status_matches = match a.status {
        Some(s) => s == t.status,
        None => true,
    };
    let payload_matches = match &a.payload {
        Some(p) => p.same_as(&t.payload),
        None => true,
    };
    let notes_matches = match &a.notes {
        Some(n) => {
            let action_empty = n.as_str().unicode_len() == 0;
            match &t.notes {
                Some(b) => {
                    let base_empty = b.as_str().unicode_len() == 0;
                    if action_empty || base_empty {
                        action_empty && base_empty
                    } else {
                        str_eq(n.as_str(), b.as_str())
                    }
                },
                None => action_empty,
            }
        },
        None => true,
    };
    status_matches && payload_matches && notes_matches
}

/// Whether the action still waits for the server (see `still_pending`).
fn is_still_pending(base: &[Ticket], a: &SyncAction) -> (r: bool)
    ensures
        r == still_pending(base@, *a),
{
    match a.action_type {
        SyncActionType::Create => find_ticket(base, a.entity_id.as_str()).is_none(),
        SyncActionType::Update => match find_ticket(base, a.entity_id.as_str()) {
            None => true,
            Some(i) => {
                proof {
                    let c = choose|c: int| is_first_with_id(base@, a.entity_id@, c);
                    lemma_first_with_id_unique(base@, a.entity_id@, i as int, c);
                }
                !update_is_confirmed(a, &base[i])
            },
        },
        SyncActionType::Delete => find_ticket(base, a.entity_id.as_str()).is_some(),
    }
}

/// Drops the pending actions whose effect the server's state already shows,
/// keeping the others in their order.
pub fn reconcile_state(base_tickets: &[Ticket], pending_actions: Vec<SyncAction>) -> (r: Vec<
    SyncAction,
>)
    ensures
        r@ == reconciled(base_tickets@, pending_actions@),
{
    let ghost pred = |a: SyncAction| still_pending(base_tickets@, a);
    let ghost orig = pending_actions@;
    let mut rest = pending_actions;
    let n = rest.len();
    let mut out: Vec<SyncAction> = Vec::new();
    let mut i: usize = 0;
    proof {
        reveal(Seq::filter);
        assert(orig.take(0) =~= Seq::<SyncAction>::empty());
        assert(orig.skip(0) =~= orig);
    }
    while rest.len() > 0
        invariant
            i <= orig.len(),
            rest@ == orig.skip(i as int),
            i + rest@.len() == orig.len(),
            orig.len() == n,
            out@ == orig.take(i as int).filter(pred),
            pred == (|a: SyncAction| still_pending(base_tickets@, a)),
        decreases rest.len(),
    {
        let a = rest.remove(0);
        proof {
            reveal(Seq::filter);
            assert(orig.take(i + 1).drop_last() =~= orig.take(i as int));
            assert(orig.take(i + 1).last() == a);
            assert(rest@ =~= orig.skip(i + 1));
        }
        if is_still_pending(base_tickets, &a) {
            out.push(a);
        }
        i = i + 1;
    }
    proof {
        assert(orig.take(i as int) =~= orig);
    }
    out
}


/// The pending actions that survive reconciliation against `base`.
pub open spec fn reconciled(base: Seq<Ticket>, pending: Seq<SyncAction>) -> Seq<SyncAction> {
    pending.filter(|a: SyncAction| still_pending(base, a))
}

proof fn lemma_filter_twice(s: Seq<SyncAction>, f: spec_fn(SyncAction) -> bool)
    ensures
        s.filter(f).filter(f) == s.filter(f),
    decreases s.len(),
{
    reveal(Seq::filter);
    if s.len() > 0 {
        lemma_filter_twice(s.drop_last(), f);
        let x = s.drop_last().filter(f);
        if f(s.last()) {
            assert(x.push(s.last()).drop_last() =~= x);
        }
    }
}

/// Reconciling against the same server state a second time drops nothing
/// more: what survived is exactly what still waits.
pub proof fn lemma_reconcile_idempotent(base: Seq<Ticket>, pending: Seq<SyncAction>)
    ensures
        reconciled(base, reconciled(base, pending)) == reconciled(base, pending),
{
    lemma_filter_twice(pending, |a: SyncAction| still_pending(base, a));
}

/// Replaying two lists of actions one after the other is replaying them
/// joined: the stack shown does not depend on how the queue was split.
pub proof fn lemma_project_concat(s: Seq<TicketV>, a: Seq<SyncAction>, b: Seq<SyncAction>)
    ensures
        project(project(s, a), b) == project(s, a + b),
    decreases b.len(),
{
    if b.len() == 0 {
        assert(a + b =~= a);
    } else {
        lemma_project_concat(s, a, b.drop_last());
        assert((a + b).drop_last() =~= a + b.drop_last());
        assert((a + b).last() == b.last());
    }
}

/// Once a deletion is replayed, no ticket of the stack carries its id.
pub proof fn lemma_delete_removes_id(s: Seq<TicketV>, a: SyncAction)
    requires
        a.action_type == SyncActionType::Delete,
    ensures
        !view_has_id(project_step(s, a), a.entity_id@),
{
    let f = other_id(a.entity_id@);
    let r = s.filter(f);
    assert forall|i: int| 0 <= i < r.len() implies #[trigger] r[i].id != a.entity_id@ by {
        s.filter_lemma(f);
        assert(f(r[i]));
    }
}

/// A creation already confirmed by the server, or a deletion the server
/// has already carried out, is dropped by reconciliation.
pub proof fn lemma_confirmed_actions_dropped(base: Seq<Ticket>, pending: Seq<SyncAction>, a: SyncAction)
    requires
        (a.action_type == SyncActionType::Create && has_id(base, a.entity_id@)) || (a.action_type
            == SyncActionType::Delete && !has_id(base, a.entity_id@)),
    ensures
        !reconciled(base, pending).contains(a),
{
    let f = |x: SyncAction| still_pending(base, x);
    pending.filter_lemma(f);
    if reconciled(base, pending).contains(a) {
        let i = choose|i: int| 0 <= i < reconciled(base, pending).len() && reconciled(base, pending)[i] == a;
        assert(f(reconciled(base, pending)[i]));
    }
}

/// An update carrying a free-form object, replayed onto a ticket whose
/// payload is a free-form object (both with keys in order, as serde_json
/// keeps them), stores the update's entries into it: afterwards every key
/// the update names holds the update's value, and every other key keeps
/// the value it had.
pub proof fn lemma_update_merges_object(
    s: Seq<TicketV>,
    a: SyncAction,
    i: int,
    oe: Seq<(Seq<char>, JsonV)>,
    ne: Seq<(Seq<char>, JsonV)>,
    k: Seq<char>,
)
    requires
        a.action_type == SyncActionType::Update,
        0 <= i < s.len(),
        s[i].id == a.entity_id@,
        forall|j: int| 0 <= j < i ==> #[trigger] s[j].id != a.entity_id@,
        s[i].payload == PayloadV::Generic(JsonV::Object(oe)),
        keys_sorted(oe),
        keys_sorted(ne),
        a.payload matches Some(p) && p@ == PayloadV::Generic(JsonV::Object(ne)),
    ensures
        project_step(s, a).len() == s.len(),
        project_step(s, a)[i].payload matches PayloadV::Generic(JsonV::Object(r)) && obj_get(r, k) == match obj_get(
            ne,
            k,
        ) {
            Some(v) => Some(v),
            None => obj_get(oe, k),
        },
        project_step(s, a)[i].title == match project_step(s, a)[i].payload {
            PayloadV::Generic(v) => match jv_get_str(v, "title"@) {
                Some(t) => t,
                None => "Untitled"@,
            },
            _ => project_step(s, a)[i].title,
        },
{
    assert(view_has_id(s, a.entity_id@));
    lemma_first_view_exists(s, a.entity_id@);
    let f = first_view_with_id(s, a.entity_id@);
    if f < i {
        assert(s[f].id != a.entity_id@);
    } else if f > i {
        assert(forall|j: int| 0 <= j < f ==> #[trigger] s[j].id != a.entity_id@);
        assert(s[i].id != a.entity_id@);
    }
    lemma_insert_all_get(oe, ne, k);
    lemma_last_for_sorted(ne, k);
}

/// An update replayed onto the first ticket with its id changes that ticket
/// only: it keeps its id; its status becomes the update's where the update
/// sets one; its notes become the update's where it sets them; without a
/// payload it keeps its payload and title; every other ticket stays as it
/// was (but for the focus the update takes, when it puts its ticket in
/// focus).
pub proof fn lemma_update_changes_one(s: Seq<TicketV>, a: SyncAction, i: int)
    requires
        a.action_type == SyncActionType::Update,
        0 <= i < s.len(),
        s[i].id == a.entity_id@,
        forall|j: int| 0 <= j < i ==> #[trigger] s[j].id != a.entity_id@,
    ensures
        project_step(s, a).len() == s.len(),
        project_step(s, a)[i].id == s[i].id,
        project_step(s, a)[i].status == match a.status {
            Some(st) => st,
            None => s[i].status,
        },
        project_step(s, a)[i].notes == match a.notes {
            Some(n) => Some(n@),
            None => s[i].notes,
        },
        a.payload is None ==> project_step(s, a)[i].payload == s[i].payload && project_step(s, a)[i].title
            == s[i].title,
        forall|j: int|
            0 <= j < s.len() && j != i ==> #[trigger] project_step(s, a)[j] == if takes_focus(a) {
                unfocused(s[j])
            } else {
                s[j]
            },
{
    assert(view_has_id(s, a.entity_id@));
    lemma_first_view_exists(s, a.entity_id@);
    let f = first_view_with_id(s, a.entity_id@);
    if f < i {
        assert(s[f].id != a.entity_id@);
    } else if f > i {
        assert(forall|j: int| 0 <= j < f ==> #[trigger] s[j].id != a.entity_id@);
        assert(s[i].id != a.entity_id@);
    }
}

/// An update that sets a status is not confirmed while the server's ticket
/// (the first with its id) shows another status: reconciliation keeps it.
pub proof fn lemma_status_change_kept(base: Seq<Ticket>, pending: Seq<SyncAction>, a: SyncAction, i: int)
    requires
        pending.contains(a),
        a.action_type == SyncActionType::Update,
        is_first_with_id(base, a.entity_id@, i),
        a.status matches Some(st) && st != base[i].status,
    ensures
        reconciled(base, pending).contains(a),
{
    assert(has_id(base, a.entity_id@));
    let c = choose|c: int| is_first_with_id(base, a.entity_id@, c);
    lemma_first_with_id_unique(base, a.entity_id@, i, c);
    assert(still_pending(base, a));
    let k = choose|k: int| 0 <= k < pending.len() && pending[k] == a;
    pending.lemma_filter_contains(|x: SyncAction| still_pending(base, x), k);
}

/// Which pending actions reconciliation keeps, for an action among them:
/// a creation while no server ticket has its id; a deletion while one
/// does; an update while no server ticket has its id, or else while the
/// first one with it differs from what the update asks in its status, its
/// payload (compared as serde_json compares values) or its notes (empty
/// notes counting as none).
pub proof fn lemma_reconcile_keeps(base: Seq<Ticket>, pending: Seq<SyncAction>, a: SyncAction)
    requires
        pending.contains(a),
    ensures
        a.action_type == SyncActionType::Create ==> (reconciled(base, pending).contains(a) <==> !has_id(
            base,
            a.entity_id@,
        )),
        a.action_type == SyncActionType::Delete ==> (reconciled(base, pending).contains(a) <==> has_id(
            base,
            a.entity_id@,
        )),
        a.action_type == SyncActionType::Update && !has_id(base, a.entity_id@) ==> reconciled(
            base,
            pending,
        ).contains(a),
        forall|i: int|
            a.action_type == SyncActionType::Update && #[trigger] is_first_with_id(base, a.entity_id@, i) ==> (
            reconciled(base, pending).contains(a) <==> !({
                &&& (a.status is None || a.status == Some(base[i].status))
                &&& (a.payload is None || payload_norm(a.payload->0@) == payload_norm(base[i].payload@))
                &&& (a.notes is None || (if a.notes->0@.len() == 0 {
                    None::<Seq<char>>
                } else {
                    Some(a.notes->0@)
                }) == (match base[i].notes {
                    Some(m) => if m@.len() == 0 {
                        None::<Seq<char>>
                    } else {
                        Some(m@)
                    },
                    None => None,
                }))
            })),
{
    let f = |x: SyncAction| still_pending(base, x);
    let r = reconciled(base, pending);
    let k = choose|k: int| 0 <= k < pending.len() && pending[k] == a;
    if still_pending(base, a) {
        pending.lemma_filter_contains(f, k);
    } else if r.contains(a) {
        let m = choose|m: int| 0 <= m < r.len() && r[m] == a;
        pending.lemma_filter_pred(f, m);
    }
    assert forall|i: int|
        a.action_type == SyncActionType::Update && #[trigger] is_first_with_id(base, a.entity_id@, i) implies (
        still_pending(base, a) <==> !update_confirmed(a, base[i])) by {
        assert(has_id(base, a.entity_id@));
        let c = choose|c: int| is_first_with_id(base, a.entity_id@, c);
        lemma_first_with_id_unique(base, a.entity_id@, i, c);
    }
}

/// The content of a sequence of tickets.
pub open spec fn tickets_view(s: Seq<Ticket>) -> Seq<TicketV> {
    s.map_values(|t: Ticket| t@)
}

/// The type a created ticket gets from its action's entity type, read case-insensitively.
pub open spec fn type_for_create(entity_type: Seq<char>) -> TicketType {
    let l = unicode_lowercase(entity_type);
    if l == "habit"@ {
        TicketType::Habit
    } else if l == "event"@ {
        TicketType::Event
    } else if l == "commute"@ {
        TicketType::Commute
    } else if l == "countdown"@ {
        TicketType::Countdown
    } else {
        TicketType::Task
    }
}

/// The type an updated ticket takes from its action's entity type.
pub open spec fn type_for_update(entity_type: Seq<char>) -> TicketType {
    let u = unicode_uppercase(entity_type);
    if u == "HABIT"@ {
        TicketType::Habit
    } else if u == "EVENT"@ {
        TicketType::Event
    } else if u == "COMMUTE"@ {
        TicketType::Commute
    } else if u == "COUNTDOWN"@ {
        TicketType::Countdown
    } else {
        TicketType::Task
    }
}

/// The payload a created ticket gets: the action's, or an empty generic object.
pub open spec fn created_payload(a: SyncAction) -> PayloadV {
    match a.payload {
        Some(p) => p@,
        None => PayloadV::Generic(JsonV::Object(Seq::empty())),
    }
}

/// The ticket a creation adds.
pub open spec fn created_ticket(a: SyncAction) -> TicketV {
    TicketV {
        id: a.entity_id@,
        title: title_of(created_payload(a)),
        ticket_type: type_for_create(a.entity_type@),
        status: match a.status {
            Some(s) => s,
            None => TicketStatus::Idle,
        },
        payload: created_payload(a),
        notes: opt_text(a.notes),
    }
}

/// A payload after an update brings `new`: two generic objects merge (the
/// new entries win); a generic payload that is not an object, or merged with
/// one, stays as it is; otherwise the new payload replaces the old.
pub open spec fn merged_payload(old: PayloadV, new: PayloadV) -> PayloadV {
    match (old, new) {
        (PayloadV::Generic(o), PayloadV::Generic(n)) => match (o, n) {
            (JsonV::Object(oe), JsonV::Object(ne)) => PayloadV::Generic(JsonV::Object(insert_all(oe, ne))),
            _ => PayloadV::Generic(o),
        },
        (_, p) => p,
    }
}

/// A ticket after an update action.
pub open spec fn updated_ticket(t: TicketV, a: SyncAction) -> TicketV {
    let payload = match a.payload {
        Some(p) => merged_payload(t.payload, p@),
        None => t.payload,
    };
    TicketV {
        id: t.id,
        title: match a.payload {
            Some(_) => title_of(payload),
            None => t.title,
        },
        ticket_type: type_for_update(a.entity_type@),
        status: match a.status {
            Some(s) => s,
            None => t.status,
        },
        payload,
        notes: match a.notes {
            Some(n) => Some(n@),
            None => t.notes,
        },
    }
}

/// Some ticket content of `s` carries the id `id`.
pub open spec fn view_has_id(s: Seq<TicketV>, id: Seq<char>) -> bool {
    exists|i: int| 0 <= i < s.len() && #[trigger] s[i].id == id
}

/// The first position of `s` whose ticket carries `id`.
pub open spec fn first_view_with_id(s: Seq<TicketV>, id: Seq<char>) -> int {
    choose|i: int| 0 <= i < s.len() && s[i].id == id && forall|j: int| 0 <= j < i ==> #[trigger] s[j].id != id
}

/// Keeps tickets whose id differs from `id`.
pub open spec fn other_id(id: Seq<char>) -> spec_fn(TicketV) -> bool {
    |t: TicketV| t.id != id
}

/// A ticket with its focus taken off: an in-focus ticket goes back to idle.
pub open spec fn unfocused(t: TicketV) -> TicketV {
    if t.status == TicketStatus::InFocus {
        TicketV { status: TicketStatus::Idle, ..t }
    } else {
        t
    }
}

/// The stack with every ticket's focus taken off.
pub open spec fn defocused(s: Seq<TicketV>) -> Seq<TicketV> {
    s.map_values(|t: TicketV| unfocused(t))
}

/// The action puts its ticket in focus.
pub open spec fn takes_focus(a: SyncAction) -> bool {
    a.status == Some(TicketStatus::InFocus)
}

/// The stack after one action. Only one ticket is in focus at a time: an
/// action that puts its ticket in focus takes the focus off the others.
pub open spec fn project_step(s: Seq<TicketV>, a: SyncAction) -> Seq<TicketV> {
    let rest = if takes_focus(a) {
        defocused(s)
    } else {
        s
    };
    match a.action_type {
        SyncActionType::Create => rest.push(created_ticket(a)),
        SyncActionType::Update => if view_has_id(s, a.entity_id@) {
            let i = first_view_with_id(s, a.entity_id@);
            rest.update(i, updated_ticket(s[i], a))
        } else {
            s
        },
        SyncActionType::Delete => s.filter(other_id(a.entity_id@)),
    }
}

/// A ticket as the stack holds it: its content, when it was created and
/// when it was last updated.
pub type StampedTicket = (TicketV, UtcTimestamp, UtcTimestamp);

/// A ticket with its timestamps.
pub open spec fn stamped_ticket(t: Ticket) -> StampedTicket {
    (t@, t.created_at, t.updated_at)
}

/// The tickets of `s` with their timestamps.
pub open spec fn stamped(s: Seq<Ticket>) -> Seq<StampedTicket> {
    s.map_values(|t: Ticket| stamped_ticket(t))
}

/// The contents of stamped tickets.
pub open spec fn contents(s: Seq<StampedTicket>) -> Seq<TicketV> {
    s.map_values(|x: StampedTicket| x.0)
}

/// The stamped stack with every ticket's focus taken off (timestamps stay).
pub open spec fn stamped_defocused(s: Seq<StampedTicket>) -> Seq<StampedTicket> {
    s.map_values(|x: StampedTicket| (unfocused(x.0), x.1, x.2))
}

/// Keeps stamped tickets whose id differs from `id`.
pub open spec fn other_stamped_id(id: Seq<char>) -> spec_fn(StampedTicket) -> bool {
    |x: StampedTicket| x.0.id != id
}

/// The stamped stack after one action replayed at `now`: as `project_step`,
/// with a created ticket created and updated at `now`, an updated ticket
/// updated at `now`, and every other ticket's timestamps kept in place.
pub open spec fn project_stamped_step(s: Seq<StampedTicket>, a: SyncAction, now: UtcTimestamp) -> Seq<
    StampedTicket,
> {
    let rest = if takes_focus(a) {
        stamped_defocused(s)
    } else {
        s
    };
    match a.action_type {
        SyncActionType::Create => rest.push((created_ticket(a), now, now)),
        SyncActionType::Update => if view_has_id(contents(s), a.entity_id@) {
            let i = first_view_with_id(contents(s), a.entity_id@);
            rest.update(i, (updated_ticket(s[i].0, a), s[i].1, now))
        } else {
            s
        },
        SyncActionType::Delete => s.filter(other_stamped_id(a.entity_id@)),
    }
}

/// The stamped stack after replaying `actions` in order, action `k` at
/// `nows[k]`.
pub open spec fn project_stamped(s: Seq<StampedTicket>, actions: Seq<SyncAction>, nows: Seq<UtcTimestamp>) -> Seq<
    StampedTicket,
>
    decreases actions.len(),
{
    if actions.len() == 0 {
        s
    } else {
        project_stamped_step(
            project_stamped(s, actions.drop_last(), nows.drop_last()),
            actions.last(),
            nows.last(),
        )
    }
}

/// Replaying two lists of actions one after the other, each at its own
/// instants, is replaying them joined: timestamps included.
pub proof fn lemma_project_stamped_concat(
    s: Seq<StampedTicket>,
    a: Seq<SyncAction>,
    na: Seq<UtcTimestamp>,
    b: Seq<SyncAction>,
    nb: Seq<UtcTimestamp>,
)
    requires
        na.len() == a.len(),
        nb.len() == b.len(),
    ensures
        project_stamped(project_stamped(s, a, na), b, nb) == project_stamped(s, a + b, na + nb),
    decreases b.len(),
{
    if b.len() == 0 {
        assert(a + b =~= a);
        assert(na + nb =~= na);
    } else {
        lemma_project_stamped_concat(s, a, na, b.drop_last(), nb.drop_last());
        assert((a + b).drop_last() =~= a + b.drop_last());
        assert((na + nb).drop_last() =~= na + nb.drop_last());
        assert((a + b).last() == b.last());
        assert((na + nb).last() == nb.last());
    }
}

/// At most one ticket of `s` is in focus.
pub open spec fn single_focus(s: Seq<TicketV>) -> bool {
    forall|i: int, j: int|
        0 <= i < j < s.len() ==> !(#[trigger] s[i].status == TicketStatus::InFocus && #[trigger] s[j].status
            == TicketStatus::InFocus)
}

/// No ticket of `s` is in focus.
pub open spec fn no_focus(s: Seq<TicketV>) -> bool {
    forall|i: int| 0 <= i < s.len() ==> #[trigger] s[i].status != TicketStatus::InFocus
}

/// The stack after replaying `actions` in order.
pub open spec fn project(s: Seq<TicketV>, actions: Seq<SyncAction>) -> Seq<TicketV>
    decreases actions.len(),
{
    if actions.len() == 0 {
        s
    } else {
        project_step(project(s, actions.drop_last()), actions.last())
    }
}

/// Where some ticket carries `id`, the first such ticket is well defined.
proof fn lemma_first_view_exists(s: Seq<TicketV>, id: Seq<char>)
    requires
        view_has_id(s, id),
    ensures
        0 <= first_view_with_id(s, id) < s.len(),
        s[first_view_with_id(s, id)].id == id,
{
    let w = choose|i: int| 0 <= i < s.len() && #[trigger] s[i].id == id;
    lemma_first_view_below(s, id, w);
}

/// A ticket at `w` carrying `id` has a first one at or before it.
proof fn lemma_first_view_below(s: Seq<TicketV>, id: Seq<char>, w: int)
    requires
        0 <= w < s.len(),
        s[w].id == id,
    ensures
        0 <= first_view_with_id(s, id) < s.len(),
        s[first_view_with_id(s, id)].id == id,
    decreases w,
{
    if exists|j: int| 0 <= j < w && #[trigger] s[j].id == id {
        let j = choose|j: int| 0 <= j < w && #[trigger] s[j].id == id;
        lemma_first_view_below(s, id, j);
    } else {
        assert(0 <= w < s.len() && s[w].id == id && forall|j: int| 0 <= j < w ==> #[trigger] s[j].id != id);
    }
}

/// No ticket is in focus once the focus is taken off every ticket.
proof fn lemma_defocused_no_focus(s: Seq<TicketV>)
    ensures
        no_focus(defocused(s)),
        defocused(s).len() == s.len(),
{
}

/// Dropping tickets never adds focus.
proof fn lemma_filter_focus(s: Seq<TicketV>, f: spec_fn(TicketV) -> bool)
    ensures
        single_focus(s) ==> single_focus(s.filter(f)),
        no_focus(s) ==> no_focus(s.filter(f)),
    decreases s.len(),
{
    reveal(Seq::filter);
    if s.len() > 0 {
        let d = s.drop_last();
        lemma_filter_focus(d, f);
        assert(single_focus(s) ==> single_focus(d)) by {
            if single_focus(s) {
                assert forall|i: int, j: int| 0 <= i < j < d.len() implies !(#[trigger] d[i].status
                    == TicketStatus::InFocus && #[trigger] d[j].status == TicketStatus::InFocus) by {
                    assert(d[i] == s[i] && d[j] == s[j]);
                }
            }
        }
        assert(no_focus(s) ==> no_focus(d)) by {
            if no_focus(s) {
                assert forall|i: int| 0 <= i < d.len() implies #[trigger] d[i].status != TicketStatus::InFocus by {
                    assert(d[i] == s[i]);
                }
            }
        }
        if single_focus(s) && s.last().status == TicketStatus::InFocus {
            assert forall|i: int| 0 <= i < d.len() implies #[trigger] d[i].status != TicketStatus::InFocus by {
                assert(d[i] == s[i]);
                assert(s[s.len() - 1].status == TicketStatus::InFocus);
            }
        }
    }
}

/// Replaying one action never leaves two tickets in focus where there was
/// at most one.
pub proof fn lemma_step_single_focus(s: Seq<TicketV>, a: SyncAction)
    requires
        single_focus(s),
    ensures
        single_focus(project_step(s, a)),
{
    lemma_defocused_no_focus(s);
    let r = project_step(s, a);
    match a.action_type {
        SyncActionType::Create => {
            if !takes_focus(a) {
                assert(created_ticket(a).status != TicketStatus::InFocus);
                assert forall|i: int, j: int| 0 <= i < j < r.len() implies !(#[trigger] r[i].status
                    == TicketStatus::InFocus && #[trigger] r[j].status == TicketStatus::InFocus) by {
                    if j == s.len() {
                    } else {
                        assert(r[i] == s[i] && r[j] == s[j]);
                    }
                }
            } else {
                assert forall|i: int, j: int| 0 <= i < j < r.len() implies !(#[trigger] r[i].status
                    == TicketStatus::InFocus && #[trigger] r[j].status == TicketStatus::InFocus) by {
                    assert(r[i] == defocused(s)[i]);
                }
            }
        },
        SyncActionType::Update => {
            if view_has_id(s, a.entity_id@) {
                lemma_first_view_exists(s, a.entity_id@);
                let k = first_view_with_id(s, a.entity_id@);
                if takes_focus(a) {
                    assert forall|i: int, j: int| 0 <= i < j < r.len() implies !(#[trigger] r[i].status
                        == TicketStatus::InFocus && #[trigger] r[j].status == TicketStatus::InFocus) by {
                        if i != k {
                            assert(r[i] == defocused(s)[i]);
                        } else {
                            assert(r[j] == defocused(s)[j]);
                        }
                    }
                } else {
                    assert forall|i: int, j: int| 0 <= i < j < r.len() implies !(#[trigger] r[i].status
                        == TicketStatus::InFocus && #[trigger] r[j].status == TicketStatus::InFocus) by {
                        if i == k {
                            assert(r[j] == s[j]);
                            if a.status is None {
                                assert(r[i].status == s[i].status);
                            }
                        } else if j == k {
                            assert(r[i] == s[i]);
                            if a.status is None {
                                assert(r[j].status == s[j].status);
                            }
                        } else {
                            assert(r[i] == s[i] && r[j] == s[j]);
                        }
                    }
                }
            }
        },
        SyncActionType::Delete => {
            lemma_filter_focus(s, other_id(a.entity_id@));
        },
    }
}

/// Replaying any list of actions on a stack with at most one ticket in focus
/// leaves at most one ticket in focus.
pub proof fn lemma_project_single_focus(s: Seq<TicketV>, actions: Seq<SyncAction>)
    requires
        single_focus(s),
    ensures
        single_focus(project(s, actions)),
    decreases actions.len(),
{
    if actions.len() > 0 {
        lemma_project_single_focus(s, actions.drop_last());
        lemma_step_single_focus(project(s, actions.drop_last()), actions.last());
    }
}

/// An action that puts a ticket in focus (a creation, or an update of a
/// ticket on the stack) leaves that ticket the only one in focus.
pub proof fn lemma_focus_taken(s: Seq<TicketV>, a: SyncAction)
    requires
        takes_focus(a),
        a.action_type == SyncActionType::Create || (a.action_type == SyncActionType::Update && view_has_id(
            s,
            a.entity_id@,
        )),
    ensures
        exists|f: int|
            0 <= f < project_step(s, a).len() && #[trigger] project_step(s, a)[f].id == a.entity_id@
                && project_step(s, a)[f].status == TicketStatus::InFocus && forall|i: int|
                0 <= i < project_step(s, a).len() && i != f ==> #[trigger] project_step(s, a)[i].status
                    != TicketStatus::InFocus,
{
    lemma_defocused_no_focus(s);
    if a.action_type == SyncActionType::Update {
        lemma_first_view_exists(s, a.entity_id@);
    }
    let r = project_step(s, a);
    let f = if a.action_type == SyncActionType::Create {
        s.len() as int
    } else {
        first_view_with_id(s, a.entity_id@)
    };
    assert(r[f].id == a.entity_id@);
    assert forall|i: int| 0 <= i < r.len() && i != f implies #[trigger] r[i].status != TicketStatus::InFocus by {
        assert(r[i] == defocused(s)[i]);
    }
}

/// The ticket type an entity type names (`habit`, `event`, `commute`,
/// `countdown`, in any case), a task for any other: how a creation reads it.
pub fn create_type(entity_type: &str) -> (r: TicketType)
    ensures
        r == type_for_create(entity_type@),
{
    let l = to_lowercase(entity_type);
    if str_eq(l.as_str(), "habit") {
        TicketType::Habit
    } else if str_eq(l.as_str(), "event") {
        TicketType::Event
    } else if str_eq(l.as_str(), "commute") {
        TicketType::Commute
    } else if str_eq(l.as_str(), "countdown") {
        TicketType::Countdown
    } else {
        TicketType::Task
    }
}

/// Reads a ticket type for an update.
fn update_type(entity_type: &str) -> (r: TicketType)
    ensures
        r == type_for_update(entity_type@),
{
    let u = to_uppercase(entity_type);
    if str_eq(u.as_str(), "HABIT") {
        TicketType::Habit
    } else if str_eq(u.as_str(), "EVENT") {
        TicketType::Event
    } else if str_eq(u.as_str(), "COMMUTE") {
        TicketType::Commute
    } else if str_eq(u.as_str(), "COUNTDOWN") {
        TicketType::Countdown
    } else {
        TicketType::Task
    }
}

/// The ticket a creation action adds.
fn create_ticket_from(a: &SyncAction) -> (r: Ticket)
    ensures
        r@ == created_ticket(*a),
        r.created_at == r.updated_at,
{
    let payload = match &a.payload {
        Some(p) => p.copy(),
        None => TicketPayload::Generic(JsonValue::empty_object()),
    };
    let title = payload.get_title().to_owned();
    let now = utc_now();
    Ticket {
        id: a.entity_id.clone(),
        ticket_type: create_type(a.entity_type.as_str()),
        status: match a.status {
            Some(s) => s,
            None => TicketStatus::Idle,
        },
        payload,
        notes: clone_opt_text(&a.notes),
        created_at: now,
        updated_at: now,
        title,
    }
}

/// A payload merged with an update's payload (see `merged_payload`).
fn merge_payload(old: &TicketPayload, new: &TicketPayload) -> (r: TicketPayload)
    ensures
        r@ == merged_payload(old@, new@),
{
    match (old, new) {
        (TicketPayload::Generic(o), TicketPayload::Generic(n)) => match (o, n) {
            (JsonValue::Object(oe), JsonValue::Object(ne)) => {
                let mut es = crate::json::json_clone(o);
                match &mut es {
                    JsonValue::Object(m) => {
                        insert_all_entries(m, ne);
                    },
                    _ => {},
                }
                TicketPayload::Generic(es)
            },
            _ => old.copy(),
        },
        _ => new.copy(),
    }
}

/// A ticket after an update action.
fn update_ticket_from(t: &Ticket, a: &SyncAction) -> (r: Ticket)
    ensures
        r@ == updated_ticket(t@, *a),
        r.created_at == t.created_at,
{
    let payload = match &a.payload {
        Some(p) => merge_payload(&t.payload, p),
        None => t.payload.copy(),
    };
    let title = match &a.payload {
        Some(_) => payload.get_title().to_owned(),
        None => t.title.clone(),
    };
    Ticket {
        id: t.id.clone(),
        title,
        ticket_type: update_type(a.entity_type.as_str()),
        status: match a.status {
            Some(s) => s,
            None => t.status,
        },
        payload,
        notes: match &a.notes {
            Some(n) => Some(n.clone()),
            None => clone_opt_text(&t.notes),
        },
        created_at: t.created_at,
        updated_at: utc_now(),
    }
}

/// The tickets whose id differs from `id`, in order, timestamps and all.
fn without_id(s: &Vec<Ticket>, id: &str) -> (r: Vec<Ticket>)
    ensures
        tickets_view(r@) == tickets_view(s@).filter(other_id(id@)),
        stamped(r@) == stamped(s@).filter(other_stamped_id(id@)),
{
    let ghost pred = other_id(id@);
    let ghost spred = other_stamped_id(id@);
    let mut out: Vec<Ticket> = Vec::new();
    let mut i: usize = 0;
    proof {
        reveal(Seq::filter);
        assert(tickets_view(s@).take(0) =~= Seq::<TicketV>::empty());
        assert(tickets_view(out@) =~= Seq::<TicketV>::empty());
        assert(stamped(s@).take(0) =~= Seq::<StampedTicket>::empty());
        assert(stamped(out@) =~= Seq::<StampedTicket>::empty());
    }
    while i < s.len()
        invariant
            i <= s.len(),
            tickets_view(out@) == tickets_view(s@).take(i as int).filter(pred),
            stamped(out@) == stamped(s@).take(i as int).filter(spred),
            pred == other_id(id@),
            spred == other_stamped_id(id@),
        decreases s.len() - i,
    {
        proof {
            reveal(Seq::filter);
            assert(tickets_view(s@).take(i + 1).drop_last() =~= tickets_view(s@).take(i as int));
            assert(tickets_view(s@).take(i + 1).last() == s@[i as int]@);
            assert(stamped(s@).take(i + 1).drop_last() =~= stamped(s@).take(i as int));
            assert(stamped(s@).take(i + 1).last() == stamped_ticket(s@[i as int]));
        }
        if !str_eq(s[i].id.as_str(), id) {
            let c = s[i].copy();
            let ghost before = out@;
            out.push(c);
            proof {
                assert(tickets_view(out@) =~= tickets_view(before).push(s@[i as int]@));
                assert(stamped(out@) =~= stamped(before).push(stamped_ticket(s@[i as int])));
            }
        }
        i = i + 1;
    }
    proof {
        assert(tickets_view(s@).take(i as int) =~= tickets_view(s@));
        assert(stamped(s@).take(i as int) =~= stamped(s@));
    }
    out
}

/// The position of the first ticket with id `id`, over ticket contents.
fn find_in_state(s: &Vec<Ticket>, id: &str) -> (r: Option<usize>)
    ensures
        match r {
            Some(i) => i < s.len() && i as int == first_view_with_id(tickets_view(s@), id@)
                && s@[i as int].id@ == id@ && view_has_id(tickets_view(s@), id@),
            None => !view_has_id(tickets_view(s@), id@),
        },
{
    let r = find_ticket(s.as_slice(), id);
    proof {
        let v = tickets_view(s@);
        match r {
            Some(i) => {
                assert(v[i as int].id == id@);
                assert(forall|j: int| 0 <= j < i ==> #[trigger] v[j].id == s@[j].id@);
                assert(view_has_id(v, id@));
                let c = first_view_with_id(v, id@);
                assert(0 <= c < v.len() && v[c].id == id@ && forall|j: int|
                    0 <= j < c ==> #[trigger] v[j].id != id@);
                if c < i {
                    assert(s@[c].id@ == id@);
                } else if i < c {
                    assert(v[i as int].id == id@);
                }
                assert(view_has_id(v, id@));
            },
            None => {
                if view_has_id(v, id@) {
                    let j = choose|j: int| 0 <= j < v.len() && #[trigger] v[j].id == id@;
                    assert(s@[j].id@ == id@);
                }
            },
        }
    }
    r
}

/// Takes the focus off every ticket of `s`; timestamps stay as they are.
fn defocus_all(s: &mut Vec<Ticket>)
    ensures
        tickets_view(final(s)@) == defocused(tickets_view(old(s)@)),
        final(s)@.len() == old(s)@.len(),
        forall|i: int|
            #![trigger final(s)@[i]]
            0 <= i < old(s)@.len() ==> final(s)@[i].created_at == old(s)@[i].created_at && final(s)@[i].updated_at
                == old(s)@[i].updated_at,
{
    let ghost orig = s@;
    let mut i: usize = 0;
    while i < s.len()
        invariant
            i <= s.len(),
            s@.len() == orig.len(),
            forall|j: int| 0 <= j < i ==> #[trigger] s@[j]@ == unfocused(orig[j]@),
            forall|j: int| i <= j < s@.len() ==> #[trigger] s@[j] == orig[j],
            forall|j: int|
                0 <= j < s@.len() ==> #[trigger] s@[j].created_at == orig[j].created_at && s@[j].updated_at
                    == orig[j].updated_at,
        decreases s.len() - i,
    {
        if s[i].status == TicketStatus::InFocus {
            let mut t = s[i].copy();
            t.status = TicketStatus::Idle;
            s.set(i, t);
        }
        i = i + 1;
    }
    proof {
        assert(tickets_view(s@) =~= defocused(tickets_view(orig)));
    }
}

/// The stack as it shows once the pending `actions` are replayed on the
/// server's tickets. Each action is replayed at an instant read from the
/// clock (`nows`, one per action): a created ticket is created and updated
/// then, an updated ticket updated then; every other ticket keeps its
/// timestamps, in place.
pub fn project_state(base_tickets: Vec<Ticket>, actions: &[SyncAction]) -> (r: Vec<Ticket>)
    ensures
        tickets_view(r@) == project(tickets_view(base_tickets@), actions@),
        exists|nows: Seq<UtcTimestamp>|
            #![trigger project_stamped(stamped(base_tickets@), actions@, nows)]
            nows.len() == actions@.len() && stamped(r@) == project_stamped(stamped(base_tickets@), actions@, nows),
{
    let ghost base = tickets_view(base_tickets@);
    let ghost sbase = stamped(base_tickets@);
    let mut effective_state = base_tickets;
    let mut k: usize = 0;
    let ghost mut nows: Seq<UtcTimestamp> = Seq::empty();
    proof {
        assert(actions@.take(0) =~= Seq::<SyncAction>::empty());
    }
    while k < actions.len()
        invariant
            k <= actions.len(),
            nows.len() == k,
            tickets_view(effective_state@) == project(base, actions@.take(k as int)),
            stamped(effective_state@) == project_stamped(sbase, actions@.take(k as int), nows),
        decreases actions.len() - k,
    {
        let action = &actions[k];
        proof {
            assert(actions@.take(k + 1).drop_last() =~= actions@.take(k as int));
            assert(actions@.take(k + 1).last() == actions@[k as int]);
        }
        let now = step_state(&mut effective_state, action);
        proof {
            assert(nows.push(now@).drop_last() =~= nows);
            nows = nows.push(now@);
        }
        k = k + 1;
    }
    proof {
        assert(actions@.take(k as int) =~= actions@);
    }
    effective_state
}

/// Replays one action on the stack (see `project_step` and
/// `project_stamped_step`); `now` is the instant the clock gave it.
fn step_state(state: &mut Vec<Ticket>, action: &SyncAction) -> (now: Ghost<UtcTimestamp>)
    ensures
        tickets_view(final(state)@) == project_step(tickets_view(old(state)@), *action),
        stamped(final(state)@) == project_stamped_step(stamped(old(state)@), *action, now@),
{
    match action.action_type {
        SyncActionType::Create => step_create(state, action),
        SyncActionType::Update => step_update(state, action),
        SyncActionType::Delete => {
            let ghost before = tickets_view(state@);
            let out = without_id(state, action.entity_id.as_str());
            *state = out;
            assert(tickets_view(state@) == project_step(before, *action));
            Ghost(UtcTimestamp { seconds: 0, nanos: 0 })
        },
    }
}

/// Replays a creation.
#[verifier::spinoff_prover]
fn step_create(state: &mut Vec<Ticket>, action: &SyncAction) -> (now: Ghost<UtcTimestamp>)
    requires
        action.action_type == SyncActionType::Create,
    ensures
        tickets_view(final(state)@) == project_step(tickets_view(old(state)@), *action),
        stamped(final(state)@) == project_stamped_step(stamped(old(state)@), *action, now@),
{
    let ghost s0 = state@;
    let focus = match action.status {
        Some(TicketStatus::InFocus) => true,
        _ => false,
    };
    assert(focus == takes_focus(*action));
    let t = create_ticket_from(action);
    let ghost now = t.created_at;
    if focus {
        defocus_all(state);
    }
    let ghost s1 = state@;
    state.push(t);
    proof {
        if focus {
            lemma_defocus_stamped(s0, s1);
        }
        assert(tickets_view(state@) =~= tickets_view(s1).push(t@));
        assert(stamped(state@) =~= stamped(s1).push(stamped_ticket(t)));
    }
    Ghost(now)
}

/// A stack whose contents are the defocused contents of `s0` and whose
/// timestamps are those of `s0`, position by position, is `s0` stamped and
/// defocused.
proof fn lemma_defocus_stamped(s0: Seq<Ticket>, s1: Seq<Ticket>)
    requires
        tickets_view(s1) == defocused(tickets_view(s0)),
        s1.len() == s0.len(),
        forall|i: int|
            #![trigger s1[i]]
            0 <= i < s0.len() ==> s1[i].created_at == s0[i].created_at && s1[i].updated_at == s0[i].updated_at,
    ensures
        stamped(s1) == stamped_defocused(stamped(s0)),
{
    assert forall|i: int| 0 <= i < s1.len() implies #[trigger] stamped(s1)[i] == stamped_defocused(stamped(s0))[i] by {
        assert(tickets_view(s1)[i] == s1[i]@);
        assert(tickets_view(s0)[i] == s0[i]@);
        assert(defocused(tickets_view(s0))[i] == unfocused(s0[i]@));
    }
    assert(stamped(s1) =~= stamped_defocused(stamped(s0)));
}

/// What replaying an update that finds its ticket at `i` comes to: the
/// ticket replaced by `nt`, after the focus is taken off the others where
/// the update takes it.
proof fn lemma_update_state(s0: Seq<Ticket>, s1: Seq<Ticket>, a: SyncAction, i: int, nt: Ticket)
    requires
        a.action_type == SyncActionType::Update,
        0 <= i < s0.len(),
        view_has_id(tickets_view(s0), a.entity_id@),
        i == first_view_with_id(tickets_view(s0), a.entity_id@),
        takes_focus(a) ==> tickets_view(s1) == defocused(tickets_view(s0)),
        takes_focus(a) ==> s1.len() == s0.len() && forall|k: int|
            #![trigger s1[k]]
            0 <= k < s0.len() ==> s1[k].created_at == s0[k].created_at && s1[k].updated_at == s0[k].updated_at,
        !takes_focus(a) ==> s1 == s0,
        nt@ == updated_ticket(s0[i]@, a),
        nt.created_at == s0[i].created_at,
    ensures
        tickets_view(s1.update(i, nt)) == project_step(tickets_view(s0), a),
        stamped(s1.update(i, nt)) == project_stamped_step(stamped(s0), a, nt.updated_at),
{
    let before = tickets_view(s0);
    let prev = stamped(s0);
    assert(contents(prev) =~= before);
    if takes_focus(a) {
        lemma_defocus_stamped(s0, s1);
    }
    assert(tickets_view(s1.update(i, nt)) =~= tickets_view(s1).update(i, nt@));
    assert(stamped(s1.update(i, nt)) =~= stamped(s1).update(i, stamped_ticket(nt)));
    assert(prev[i].0 == before[i]);
}

/// Replays an update.
#[verifier::spinoff_prover]
fn step_update(state: &mut Vec<Ticket>, action: &SyncAction) -> (now: Ghost<UtcTimestamp>)
    requires
        action.action_type == SyncActionType::Update,
    ensures
        tickets_view(final(state)@) == project_step(tickets_view(old(state)@), *action),
        stamped(final(state)@) == project_stamped_step(stamped(old(state)@), *action, now@),
{
    let ghost s0 = state@;
    let focus = match action.status {
        Some(TicketStatus::InFocus) => true,
        _ => false,
    };
    assert(focus == takes_focus(*action));
    match find_in_state(state, action.entity_id.as_str()) {
        Some(i) => {
            let nt = update_ticket_from(&state[i], action);
            let ghost now = nt.updated_at;
            if focus {
                defocus_all(state);
            }
            let ghost s1 = state@;
            state.set(i, nt);
            proof {
                lemma_update_state(s0, s1, *action, i as int, nt);
            }
            Ghost(now)
        },
        None => {
            proof {
                assert(contents(stamped(s0)) =~= tickets_view(s0));
            }
            Ghost(UtcTimestamp { seconds: 0, nanos: 0 })
        },
    }
}

} // verus!
