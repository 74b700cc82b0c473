//! The queue of local actions waiting for the server, and the commute kept in
//! step with each scheduled event.
use vstd::prelude::*;
use crate::clock::{new_uuid, now_rfc3339};
use crate::commute::{
    related_commute_id, find_related_commute_id, inferred_commute, infer_commute_payload_from_event,
    deadline_fits, event_schedule, opt_payload,
};
use crate::sync::{SyncAction, SyncActionType};
use crate::ticket::{Ticket, TicketPayload, TicketStatus, PayloadV, opt_text};
use crate::text::owned;

verus! {

/// At most this many actions wait in the queue; older ones are dropped.
pub const MAX_PENDING_ACTIONS: usize = 50;

/// The last `n` items of `s` (all of them when there are fewer).
pub open spec fn keep_last<T>(s: Seq<T>, n: nat) -> Seq<T> {
    if s.len() > n {
        s.skip(s.len() - n)
    } else {
        s
    }
}

/// Appends an action to the queue and drops the oldest ones beyond the cap.
pub fn push_pending_capped(actions: &mut Vec<SyncAction>, action: SyncAction)
    ensures
        final(actions)@ == keep_last(old(actions)@.push(action), MAX_PENDING_ACTIONS as nat),
        final(actions)@.len() <= MAX_PENDING_ACTIONS,
        final(actions)@.last() == action,
{
    let ghost full = old(actions)@.push(action);
    actions.push(action);
    let mut dropped: usize = 0;
    let total = actions.len();
    assert(full.skip(0) =~= full);
    while actions.len() > MAX_PENDING_ACTIONS
        invariant
            actions@ == full.skip(dropped as int),
            dropped <= full.len(),
            full.len() == total,
            actions@.len() + dropped == full.len(),
            dropped > 0 ==> full.len() - dropped >= MAX_PENDING_ACTIONS,
        decreases actions@.len(),
    {
        actions.remove(0);
        proof {
            assert(actions@ =~= full.skip(dropped + 1));
        }
        dropped = dropped + 1;
    }
    assert(actions@ =~= keep_last(full, MAX_PENDING_ACTIONS as nat));
}

/// A new action stamped with a fresh id and the current time.
pub fn new_pending_action(
    action_type: SyncActionType,
    entity_id: String,
    entity_type: String,
    payload: Option<TicketPayload>,
    status: Option<TicketStatus>,
    notes: Option<String>,
) -> (r: SyncAction)
    ensures
        r.action_id@.len() == 36,
        r.action_type == action_type,
        r.entity_id == entity_id,
        r.entity_type == entity_type,
        r.payload == payload,
        r.status == status,
        r.notes == notes,
{
    SyncAction {
        action_id: new_uuid(),
        action_type,
        entity_id,
        entity_type,
        status,
        payload,
        notes,
        timestamp: now_rfc3339(),
    }
}

/// Records a local change: a new stamped action at the end of the queue,
/// the oldest dropped beyond the cap.
pub fn append_pending_action(
    actions: &mut Vec<SyncAction>,
    action_type: SyncActionType,
    entity_id: String,
    entity_type: String,
    payload: Option<TicketPayload>,
    status: Option<TicketStatus>,
    notes: Option<String>,
)
    ensures
        final(actions)@.len() == if old(actions)@.len() + 1 > MAX_PENDING_ACTIONS {
            MAX_PENDING_ACTIONS as int
        } else {
            old(actions)@.len() + 1int
        },
        final(actions)@.drop_last() == keep_last(old(actions)@, (MAX_PENDING_ACTIONS - 1) as nat),
        final(actions)@.last().action_type == action_type,
        final(actions)@.last().entity_id == entity_id,
        final(actions)@.last().entity_type == entity_type,
        final(actions)@.last().payload == payload,
        final(actions)@.last().status == status,
        final(actions)@.last().notes == notes,
        final(actions)@.last().action_id@.len() == 36,
{
    let a = new_pending_action(action_type, entity_id, entity_type, payload, status, notes);
    let ghost o = old(actions)@;
    push_pending_capped(actions, a);
    proof {
        let full = o.push(a);
        if full.len() > MAX_PENDING_ACTIONS {
            assert(full.skip(full.len() - MAX_PENDING_ACTIONS).drop_last() =~= o.skip(
                o.len() - (MAX_PENDING_ACTIONS - 1),
            ));
        } else {
            assert(full.drop_last() =~= o);
        }
    }
}

/// What keeps an event's commute in step with the event.
pub enum CommuteSyncStep {
    /// Replace the payload of the commute that follows the event.
    UpdateCommute { commute_id: String, payload: TicketPayload },
    /// Create a commute for the event.
    CreateCommute { payload: TicketPayload },
    /// Delete the commute that no longer has an event to follow.
    DeleteCommute { commute_id: String },
    /// Nothing to do.
    NoChange,
}

/// The step for an existing commute (by id) and the commute the event calls
/// for now.
pub open spec fn commute_step_spec(existing: Option<Seq<char>>, inferred: Option<PayloadV>, r: CommuteSyncStep) -> bool {
    match (existing, inferred) {
        (Some(id), Some(p)) => r matches CommuteSyncStep::UpdateCommute { commute_id, payload }
            && commute_id@ == id && payload@ == p,
        (None, Some(p)) => r matches CommuteSyncStep::CreateCommute { payload } && payload@ == p,
        (Some(id), None) => r matches CommuteSyncStep::DeleteCommute { commute_id } && commute_id@ == id,
        (None, None) => r is NoChange,
    }
}

/// The content of an optional borrowed payload.
pub open spec fn opt_payload_ref(o: Option<&TicketPayload>) -> Option<PayloadV> {
    match o {
        Some(p) => Some(p@),
        None => None,
    }
}

/// The commute an event (if any) calls for, given the deadline shown for it.
pub open spec fn commute_called_for(event_id: Seq<char>, event: Option<PayloadV>, d: Option<Seq<char>>) -> Option<
    PayloadV,
> {
    match event {
        Some(p) => inferred_commute(event_id, p, d),
        None => None,
    }
}

/// A deadline as it may be shown for the event (if any).
pub open spec fn event_deadline_fits(event: Option<PayloadV>, d: Option<Seq<char>>) -> bool {
    match event {
        Some(p) => deadline_fits(event_schedule(p), d),
        None => true,
    }
}

/// Decides how to bring the commute that follows `event_id` in line with the
/// event: update it, create it, delete it, or leave things as they are.
pub fn event_commute_step(tasks: &[Ticket], event_id: &str, event_payload: Option<&TicketPayload>) -> (r:
    CommuteSyncStep)
    ensures
        exists|d: Option<Seq<char>>|
            event_deadline_fits(opt_payload_ref(event_payload), d) && commute_step_spec(
                related_commute_id(tasks@, event_id@),
                commute_called_for(event_id@, opt_payload_ref(event_payload), d),
                r,
            ),
{
    let existing = find_related_commute_id(tasks, event_id);
    let inferred = match event_payload {
        Some(p) => infer_commute_payload_from_event(event_id, p),
        None => None,
    };
    let ghost d: Option<Seq<char>> = match event_payload {
        Some(p) => choose|d: Option<Seq<char>>|
            deadline_fits(event_schedule(p@), d) && opt_payload(inferred) == inferred_commute(
                event_id@,
                p@,
                d,
            ),
        None => None,
    };
    let r = match (existing, inferred) {
        (Some(commute_id), Some(payload)) => CommuteSyncStep::UpdateCommute { commute_id, payload },
        (None, Some(payload)) => CommuteSyncStep::CreateCommute { payload },
        (Some(commute_id), None) => CommuteSyncStep::DeleteCommute { commute_id },
        (None, None) => CommuteSyncStep::NoChange,
    };
    assert(event_deadline_fits(opt_payload_ref(event_payload), d) && commute_step_spec(
        related_commute_id(tasks@, event_id@),
        commute_called_for(event_id@, opt_payload_ref(event_payload), d),
        r,
    ));
    r
}

} // verus!
