//! What each tool call the model makes asks of the stack: the local change
//! to record (and the reply once it is recorded), or the reply explaining
//! why nothing changes.
use vstd::prelude::*;
use crate::clock::{UtcTimestamp, utc_rfc3339, rfc3339_offset_text, new_uuid, expires_after_minutes, expiry_text};
use crate::encode::{type_wire_name, ticket_type_name};
use crate::json::{JsonValue, JsonV, jv_get, jv_get_str, jv_get_i64};
use crate::locations::{event_location_spec, resolve_event_location, opt_location_result};
use crate::settings::{SavedLocation, UserSettings};
use crate::sync::{SyncAction, SyncActionType, project_step, lemma_focus_taken};
use crate::temporal::{parse_agent_rrule, schedule_fits, schedule_view, opt_text_view};
use crate::text::{concat2, concat3, concat5, owned, str_eq, to_uppercase, unicode_uppercase};
use crate::find::{first_match, is_first, lemma_first_match_at, lemma_first_match_none};
use crate::json::{JsonMap, obj_insert, entries_view, entries_insert, json_clone, lemma_entries_view};
use crate::encode::{opt_location_json, opt_departure_json, encode_opt_location, encode_opt_departure};
use crate::locations::{
    departure_arg_spec, parse_departure_time_arg, opt_departure_result, commute_location_spec,
    resolve_commute_location, resolved_view,
};
use crate::commute::DEFAULT_COMMUTE_BUFFER_MINUTES;
use crate::ticket::{CommuteDepartureTime, TicketLocation, TicketV};
use crate::text::{chars_of, string_from_chars, concat4};
use crate::encode::{object_of, object_from_pairs};
use crate::clock::MAX_COUNTDOWN_MINUTES;
use crate::update::apply_updates;
use crate::ticket::{
    Ticket, TicketType, TicketStatus, TicketPayload, PayloadV, LocationV, opt_text, opt_location,
    clone_opt_text,
};

verus! {

/// A local change to record.
#[derive(Debug)]
pub struct PendingChange {
    pub action_type: SyncActionType,
    pub entity_id: String,
    pub entity_type: String,
    pub payload: Option<TicketPayload>,
    pub status: Option<TicketStatus>,
    pub notes: Option<String>,
}

/// The event whose commute must follow once a change is recorded, with the
/// event's payload as it now stands (none once it is no longer an event).
#[derive(Debug)]
pub struct EventFollowUp {
    pub event_id: String,
    pub event_payload: Option<TicketPayload>,
}

/// What a tool call comes to.
#[derive(Debug)]
pub enum ToolDecision {
    /// Record the change; once recorded, reply with `reply` and bring the
    /// event's commute in line, if asked.
    Record { change: PendingChange, reply: String, follow_up: Option<EventFollowUp> },
    /// Record the deletion of each (ticket id, ticket type), then reply.
    DeleteAll { deletions: Vec<(String, String)>, reply: String },
    /// Change nothing and reply.
    Reply(String),
}

/// The content of a change.
pub struct ChangeV {
    pub action_type: SyncActionType,
    pub entity_id: Seq<char>,
    pub entity_type: Seq<char>,
    pub payload: Option<PayloadV>,
    pub status: Option<TicketStatus>,
    pub notes: Option<Seq<char>>,
}

/// The content of a decision.
pub enum DecisionV {
    Record { change: ChangeV, reply: Seq<char>, follow_up: Option<(Seq<char>, Option<PayloadV>)> },
    DeleteAll { deletions: Seq<(Seq<char>, Seq<char>)>, reply: Seq<char> },
    Reply(Seq<char>),
}

/// The content of an optional payload.
pub open spec fn opt_payload_view(o: Option<TicketPayload>) -> Option<PayloadV> {
    match o {
        Some(p) => Some(p@),
        None => None,
    }
}

impl View for PendingChange {
    type V = ChangeV;

    open spec fn view(&self) -> ChangeV {
        ChangeV {
            action_type: self.action_type,
            entity_id: self.entity_id@,
            entity_type: self.entity_type@,
            payload: opt_payload_view(self.payload),
            status: self.status,
            notes: opt_text(self.notes),
        }
    }
}

impl View for ToolDecision {
    type V = DecisionV;

    open spec fn view(&self) -> DecisionV {
        match *self {
            ToolDecision::Record { change, reply, follow_up } => DecisionV::Record {
                change: change@,
                reply: reply@,
                follow_up: match follow_up {
                    Some(f) => Some((f.event_id@, opt_payload_view(f.event_payload))),
                    None => None,
                },
            },
            ToolDecision::DeleteAll { deletions, reply } => DecisionV::DeleteAll {
                deletions: deletions@.map_values(|d: (String, String)| (d.0@, d.1@)),
                reply: reply@,
            },
            ToolDecision::Reply(t) => DecisionV::Reply(t@),
        }
    }
}

/// The reply to a tool call that failed for `reason`.
pub open spec fn failed(reason: Seq<char>) -> Seq<char> {
    "⚠️ Tool failed: "@ + reason + "."@
}

/// The text under `key`, or `default`.
pub open spec fn str_or(args: JsonV, key: Seq<char>, default: Seq<char>) -> Seq<char> {
    match jv_get_str(args, key) {
        Some(t) => t,
        None => default,
    }
}

/// The text under `key`, or `default`.
fn arg_or(args: &JsonValue, key: &str, default: &str) -> (r: String)
    ensures
        r@ == str_or(args@, key@, default@),
{
    match args.get_string(key) {
        Some(t) => t,
        None => owned(default),
    }
}

/// The reply to a tool call that failed for `reason`.
fn failure(reason: &str) -> (r: String)
    ensures
        r@ == failed(reason@),
{
    concat3("⚠️ Tool failed: ", reason, ".")
}

/// The content of a schedule read from `rrule`.
pub open spec fn opt_schedule(o: Option<Result<(UtcTimestamp, Option<String>), String>>) -> Option<
    Result<(UtcTimestamp, Option<Seq<char>>), Seq<char>>,
> {
    match o {
        Some(r) => Some(schedule_view(r)),
        None => None,
    }
}

/// The start text and rule of a schedule read successfully (or neither).
pub open spec fn schedule_parts(sched: Option<Result<(UtcTimestamp, Option<Seq<char>>), Seq<char>>>) -> (
    Option<Seq<char>>,
    Option<Seq<char>>,
) {
    match sched {
        Some(Ok((start, rule))) => (Some(rfc3339_offset_text(start)), rule),
        _ => (None, None),
    }
}

/// What `create_ticket` asks for, given the schedule read from its `rrule`
/// (if it has one) and the id for the new ticket.
pub open spec fn create_ticket_spec(
    args: JsonV,
    ls: Seq<SavedLocation>,
    sched: Option<Result<(UtcTimestamp, Option<Seq<char>>), Seq<char>>>,
    id: Seq<char>,
) -> DecisionV {
    let kind = unicode_uppercase(str_or(args, "type"@, "TASK"@));
    let notes = jv_get_str(args, "notes"@);
    let title = str_or(args, "title"@, "Untitled"@);
    let duration = jv_get_i64(args, "duration_minutes"@);
    match event_location_spec(args, ls) {
        Err(e) => DecisionV::Reply(failed(e)),
        Ok(location) => match sched {
            Some(Err(e)) => DecisionV::Reply(
                "⚠️ Tool failed: "@ + e + ". You must output a valid RFC 5545 string. Try again."@,
            ),
            _ => {
                let (scheduled, rule) = schedule_parts(sched);
                let payload = if kind == "HABIT"@ {
                    PayloadV::Habit { title, scheduled_time_iso: scheduled, rrule: rule, completed: Some(false) }
                } else if kind == "EVENT"@ {
                    PayloadV::Event {
                        title,
                        scheduled_time_iso: scheduled,
                        rrule: rule,
                        duration_minutes: duration,
                        location,
                        completed: Some(false),
                    }
                } else {
                    PayloadV::Task {
                        title,
                        scheduled_time_iso: scheduled,
                        rrule: rule,
                        duration_minutes: duration,
                        completed: Some(false),
                    }
                };
                DecisionV::Record {
                    change: ChangeV {
                        action_type: SyncActionType::Create,
                        entity_id: id,
                        entity_type: kind,
                        payload: Some(payload),
                        status: Some(TicketStatus::Idle),
                        notes,
                    },
                    reply: "Ticket created successfully."@,
                    follow_up: if kind == "EVENT"@ {
                        Some((id, Some(payload)))
                    } else {
                        None
                    },
                }
            },
        },
    }
}

/// Decides `create_ticket` once its schedule is read and its id chosen.
pub fn create_ticket_decision(
    args: &JsonValue,
    settings: &UserSettings,
    sched: Option<Result<(UtcTimestamp, Option<String>), String>>,
    entity_id: String,
) -> (r: ToolDecision)
    ensures
        r@ == create_ticket_spec(args@, settings.saved_locations@, opt_schedule(sched), entity_id@),
{
    let kind_in = arg_or(args, "type", "TASK");
    let kind = to_uppercase(kind_in.as_str());
    let notes = args.get_string("notes");
    let title = arg_or(args, "title", "Untitled");
    let duration = args.get_i64("duration_minutes");
    let location = match resolve_event_location(args, settings) {
        Ok(l) => l,
        Err(e) => {
            return ToolDecision::Reply(failure(e.as_str()));
        },
    };
    let (scheduled, rule) = match sched {
        Some(Err(e)) => {
            return ToolDecision::Reply(
                concat3("⚠️ Tool failed: ", e.as_str(), ". You must output a valid RFC 5545 string. Try again."),
            );
        },
        Some(Ok((start, rule))) => (Some(utc_rfc3339(start)), rule),
        None => (None, None),
    };
    let is_event = str_eq(kind.as_str(), "EVENT");
    let payload = if str_eq(kind.as_str(), "HABIT") {
        TicketPayload::Habit { title, scheduled_time_iso: scheduled, rrule: rule, completed: Some(false) }
    } else if is_event {
        TicketPayload::Event {
            title,
            scheduled_time_iso: scheduled,
            rrule: rule,
            duration_minutes: duration,
            location,
            completed: Some(false),
        }
    } else {
        TicketPayload::Task {
            title,
            scheduled_time_iso: scheduled,
            rrule: rule,
            duration_minutes: duration,
            completed: Some(false),
        }
    };
    let follow_up = if is_event {
        Some(EventFollowUp { event_id: entity_id.clone(), event_payload: Some(payload.copy()) })
    } else {
        None
    };
    ToolDecision::Record {
        change: PendingChange {
            action_type: SyncActionType::Create,
            entity_id,
            entity_type: kind,
            payload: Some(payload),
            status: Some(TicketStatus::Idle),
            notes,
        },
        reply: owned("Ticket created successfully."),
        follow_up,
    }
}

/// Position `i` holds the ticket `id`.
pub open spec fn has_ticket_id(ts: Seq<Ticket>, id: Seq<char>) -> spec_fn(int) -> bool {
    |i: int| ts[i].id@ == id
}

/// The first ticket carrying `id`.
pub open spec fn ticket_with_id(ts: Seq<Ticket>, id: Seq<char>) -> Option<Ticket> {
    match first_match(ts.len() as int, has_ticket_id(ts, id)) {
        Some(i) => Some(ts[i]),
        None => None,
    }
}

/// The first ticket carrying `id`.
fn find_ticket_with_id<'a>(tasks: &'a Vec<Ticket>, id: &str) -> (r: Option<&'a Ticket>)
    ensures
        match r {
            Some(t) => ticket_with_id(tasks@, id@) == Some(*t),
            None => ticket_with_id(tasks@, id@) is None,
        },
{
    let ghost ts = tasks@;
    let ghost pr = has_ticket_id(ts, id@);
    let mut i: usize = 0;
    while i < tasks.len()
        invariant
            ts == tasks@,
            pr == has_ticket_id(ts, id@),
            i <= ts.len(),
            forall|j: int| 0 <= j < i ==> !#[trigger] pr(j),
        decreases ts.len() - i,
    {
        if str_eq(tasks[i].id.as_str(), id) {
            proof {
                assert(is_first(ts.len() as int, pr, i as int));
                lemma_first_match_at(ts.len() as int, pr, i as int);
            }
            return Some(&tasks[i]);
        }
        i = i + 1;
    }
    proof {
        lemma_first_match_none(ts.len() as int, pr);
    }
    None
}

/// The type name of the ticket `id`, or `"TASK"` when there is none.
pub open spec fn existing_type(ts: Seq<Ticket>, id: Seq<char>) -> Seq<char> {
    match ticket_with_id(ts, id) {
        Some(t) => type_wire_name(t.ticket_type),
        None => "TASK"@,
    }
}

/// What `delete_ticket` asks for.
pub open spec fn delete_ticket_spec(args: JsonV, ts: Seq<Ticket>) -> DecisionV {
    let id = str_or(args, "task_id"@, Seq::empty());
    if id.len() == 0 {
        DecisionV::Reply(
            "⚠️ Tool failed: task_id missing. The agent should identify the correct task_id from the conversation context and try again."@,
        )
    } else {
        DecisionV::Record {
            change: ChangeV {
                action_type: SyncActionType::Delete,
                entity_id: id,
                entity_type: existing_type(ts, id),
                payload: None,
                status: None,
                notes: None,
            },
            reply: "Ticket deleted."@,
            follow_up: None,
        }
    }
}

/// Decides `delete_ticket`: the ticket named by `task_id`, with its type.
pub fn delete_ticket_decision(args: &JsonValue, tasks: &Vec<Ticket>) -> (r: ToolDecision)
    ensures
        r@ == delete_ticket_spec(args@, tasks@),
{
    let id = arg_or(args, "task_id", "");
    proof {
        reveal_strlit("");
    }
    if id.as_str().unicode_len() == 0 {
        return ToolDecision::Reply(
            owned(
                "⚠️ Tool failed: task_id missing. The agent should identify the correct task_id from the conversation context and try again.",
            ),
        );
    }
    let entity_type = match find_ticket_with_id(tasks, id.as_str()) {
        Some(t) => owned(ticket_type_name(t.ticket_type)),
        None => owned("TASK"),
    };
    ToolDecision::Record {
        change: PendingChange {
            action_type: SyncActionType::Delete,
            entity_id: id,
            entity_type,
            payload: None,
            status: None,
            notes: None,
        },
        reply: owned("Ticket deleted."),
        follow_up: None,
    }
}

/// What `remove_commute` asks for: the deletion of the commute named by
/// `task_id`.
pub open spec fn remove_commute_spec(args: JsonV) -> DecisionV {
    let id = str_or(args, "task_id"@, Seq::empty());
    if id.len() == 0 {
        DecisionV::Reply(
            "⚠️ Tool failed: task_id missing. The agent should identify the correct task_id from the conversation context and try again."@,
        )
    } else {
        DecisionV::Record {
            change: ChangeV {
                action_type: SyncActionType::Delete,
                entity_id: id,
                entity_type: "COMMUTE"@,
                payload: None,
                status: None,
                notes: None,
            },
            reply: "Commute removed."@,
            follow_up: None,
        }
    }
}

/// Decides `remove_commute`: the commute named by `task_id`.
pub fn remove_commute_decision(args: &JsonValue) -> (r: ToolDecision)
    ensures
        r@ == remove_commute_spec(args@),
{
    let id = arg_or(args, "task_id", "");
    proof {
        reveal_strlit("");
    }
    if id.as_str().unicode_len() == 0 {
        return ToolDecision::Reply(
            owned(
                "⚠️ Tool failed: task_id missing. The agent should identify the correct task_id from the conversation context and try again.",
            ),
        );
    }
    ToolDecision::Record {
        change: PendingChange {
            action_type: SyncActionType::Delete,
            entity_id: id,
            entity_type: owned("COMMUTE"),
            payload: None,
            status: None,
            notes: None,
        },
        reply: owned("Commute removed."),
        follow_up: None,
    }
}

/// What `delete_all_tickets` asks for: one deletion per ticket.
pub open spec fn delete_all_spec(ts: Seq<Ticket>) -> DecisionV {
    if ts.len() == 0 {
        DecisionV::Reply("⚠️ Tool failed: no tickets to delete."@)
    } else {
        DecisionV::DeleteAll {
            deletions: ts.map_values(|t: Ticket| (t.id@, type_wire_name(t.ticket_type))),
            reply: "All tickets deleted."@,
        }
    }
}

/// Decides `delete_all_tickets`.
pub fn delete_all_decision(tasks: &Vec<Ticket>) -> (r: ToolDecision)
    ensures
        r@ == delete_all_spec(tasks@),
{
    if tasks.len() == 0 {
        return ToolDecision::Reply(owned("⚠️ Tool failed: no tickets to delete."));
    }
    let mut deletions: Vec<(String, String)> = Vec::new();
    let mut i: usize = 0;
    while i < tasks.len()
        invariant
            i <= tasks@.len(),
            deletions@.len() == i,
            forall|k: int|
                0 <= k < i ==> (#[trigger] deletions@[k]).0@ == tasks@[k].id@ && deletions@[k].1@
                    == type_wire_name(tasks@[k].ticket_type),
        decreases tasks@.len() - i,
    {
        deletions.push((tasks[i].id.clone(), owned(ticket_type_name(tasks[i].ticket_type))));
        i = i + 1;
    }
    let r = ToolDecision::DeleteAll { deletions, reply: owned("All tickets deleted.") };
    assert(deletions@.map_values(|d: (String, String)| (d.0@, d.1@)) =~= tasks@.map_values(
        |t: Ticket| (t.id@, type_wire_name(t.ticket_type)),
    ));
    r
}

/// The failure reply for a schedule that could not be read.
pub open spec fn schedule_failed(e: Seq<char>) -> Seq<char> {
    "⚠️ Tool failed: "@ + e + ". You must output a valid RFC 5545 string. Try again."@
}

/// The fields `edit_ticket` changes directly: title, duration and schedule.
pub open spec fn edit_base_updates(args: JsonV, sched: Option<Result<(UtcTimestamp, Option<Seq<char>>), Seq<char>>>) -> Seq<
    (Seq<char>, JsonV),
> {
    let u1 = match jv_get(args, "title"@) {
        Some(v) => obj_insert(Seq::empty(), "title"@, v),
        None => Seq::empty(),
    };
    let u2 = match jv_get(args, "duration_minutes"@) {
        Some(v) => obj_insert(u1, "duration_minutes"@, v),
        None => u1,
    };
    match sched {
        Some(Ok((start, rule))) => obj_insert(
            obj_insert(u2, "scheduled_time_iso"@, JsonV::Str(rfc3339_offset_text(start))),
            "rrule"@,
            match rule {
                Some(t) => JsonV::Str(t),
                None => JsonV::Null,
            },
        ),
        _ => u2,
    }
}

/// What `edit_ticket` asks for, given the schedule read from its `rrule`.
pub open spec fn edit_ticket_spec(
    args: JsonV,
    ls: Seq<SavedLocation>,
    ts: Seq<Ticket>,
    sched: Option<Result<(UtcTimestamp, Option<Seq<char>>), Seq<char>>>,
) -> DecisionV {
    let id = str_or(args, "task_id"@, Seq::empty());
    let existing = ticket_with_id(ts, id);
    let kind = match jv_get_str(args, "type"@) {
        Some(t) => unicode_uppercase(t),
        None => existing_type(ts, id),
    };
    let notes = jv_get_str(args, "notes"@);
    if id.len() == 0 {
        DecisionV::Reply("⚠️ Tool failed: task_id missing."@)
    } else if sched matches Some(Err(e)) {
        DecisionV::Reply(schedule_failed(sched->0->Err_0))
    } else if jv_get(args, "location"@) is Some && kind != "EVENT"@ {
        DecisionV::Reply("⚠️ Tool failed: location is currently only supported for EVENT tickets."@)
    } else if jv_get(args, "location"@) is Some && event_location_spec(args, ls) is Err {
        DecisionV::Reply(failed(event_location_spec(args, ls)->Err_0))
    } else if jv_get(args, "departure_time"@) is Some && kind != "COMMUTE"@ {
        DecisionV::Reply("⚠️ Tool failed: departure_time is currently only supported for COMMUTE tickets."@)
    } else if jv_get(args, "departure_time"@) is Some && departure_arg_spec(
        args,
        "departure_time"@,
        "departure time"@,
    ) is Err {
        DecisionV::Reply(failed(departure_arg_spec(args, "departure_time"@, "departure time"@)->Err_0))
    } else {
        let u3 = edit_base_updates(args, sched);
        let u4 = if jv_get(args, "location"@) is Some {
            obj_insert(u3, "location"@, opt_location_json(event_location_spec(args, ls)->Ok_0))
        } else {
            u3
        };
        let u5 = if jv_get(args, "departure_time"@) is Some {
            obj_insert(
                u4,
                "departure_time"@,
                opt_departure_json(departure_arg_spec(args, "departure_time"@, "departure time"@)->Ok_0),
            )
        } else {
            u4
        };
        let projected = if kind == "EVENT"@ {
            match existing {
                Some(t) => Some(apply_updates(t.payload@, u5)),
                None => None,
            }
        } else {
            None
        };
        DecisionV::Record {
            change: ChangeV {
                action_type: SyncActionType::Update,
                entity_id: id,
                entity_type: kind,
                payload: if u5.len() == 0 {
                    None
                } else {
                    Some(PayloadV::Generic(JsonV::Object(u5)))
                },
                status: None,
                notes,
            },
            reply: "Ticket edited."@,
            follow_up: match projected {
                Some(p) => Some((id, Some(p))),
                None => match existing {
                    Some(t) => if t.ticket_type == TicketType::Event {
                        Some((id, None))
                    } else {
                        None
                    },
                    None => None,
                },
            },
        }
    }
}

/// Decides `edit_ticket` once its schedule is read: the fields to change,
/// checked against the ticket's type, as one generic update.
#[verifier::spinoff_prover]
#[verifier::rlimit(40)]
pub fn edit_ticket_decision(
    args: &JsonValue,
    settings: &UserSettings,
    tasks: &Vec<Ticket>,
    sched: Option<Result<(UtcTimestamp, Option<String>), String>>,
) -> (r: ToolDecision)
    ensures
        r@ == edit_ticket_spec(args@, settings.saved_locations@, tasks@, opt_schedule(sched)),
{
    let id = arg_or(args, "task_id", "");
    proof {
        reveal_strlit("");
    }
    if id.as_str().unicode_len() == 0 {
        return ToolDecision::Reply(owned("⚠️ Tool failed: task_id missing."));
    }
    let existing = find_ticket_with_id(tasks, id.as_str());
    let kind = match args.get_string("type") {
        Some(t) => to_uppercase(t.as_str()),
        None => match existing {
            Some(t) => owned(ticket_type_name(t.ticket_type)),
            None => owned("TASK"),
        },
    };
    let notes = args.get_string("notes");
    let mut updates: JsonMap = Vec::new();
    assert(entries_view(updates@) =~= Seq::empty());
    match args.get("title") {
        Some(v) => entries_insert(&mut updates, owned("title"), json_clone(v)),
        None => {},
    }
    match args.get("duration_minutes") {
        Some(v) => entries_insert(&mut updates, owned("duration_minutes"), json_clone(v)),
        None => {},
    }
    match sched {
        Some(Err(e)) => {
            return ToolDecision::Reply(
                concat3("⚠️ Tool failed: ", e.as_str(), ". You must output a valid RFC 5545 string. Try again."),
            );
        },
        Some(Ok((start, rule))) => {
            entries_insert(&mut updates, owned("scheduled_time_iso"), JsonValue::Str(utc_rfc3339(start)));
            let rv = match rule {
                Some(t) => JsonValue::Str(t),
                None => JsonValue::Null,
            };
            entries_insert(&mut updates, owned("rrule"), rv);
        },
        None => {},
    }
    let is_event = str_eq(kind.as_str(), "EVENT");
    if args.get("location").is_some() {
        if !is_event {
            return ToolDecision::Reply(
                owned("⚠️ Tool failed: location is currently only supported for EVENT tickets."),
            );
        }
        let location = match resolve_event_location(args, settings) {
            Ok(l) => l,
            Err(e) => {
                return ToolDecision::Reply(failure(e.as_str()));
            },
        };
        entries_insert(&mut updates, owned("location"), encode_opt_location(&location));
    }
    if args.get("departure_time").is_some() {
        if !str_eq(kind.as_str(), "COMMUTE") {
            return ToolDecision::Reply(
                owned("⚠️ Tool failed: departure_time is currently only supported for COMMUTE tickets."),
            );
        }
        let departure = match parse_departure_time_arg(args, "departure_time", "departure time") {
            Ok(d) => d,
            Err(e) => {
                return ToolDecision::Reply(failure(e.as_str()));
            },
        };
        entries_insert(&mut updates, owned("departure_time"), encode_opt_departure(departure));
    }
    let projected = if is_event {
        match existing {
            Some(t) => {
                let mut p = t.payload.copy();
                p.apply_partial_update(&updates);
                Some(p)
            },
            None => None,
        }
    } else {
        None
    };
    let follow_up = match projected {
        Some(p) => Some(EventFollowUp { event_id: id.clone(), event_payload: Some(p) }),
        None => match existing {
            Some(t) => if t.ticket_type == TicketType::Event {
                Some(EventFollowUp { event_id: id.clone(), event_payload: None })
            } else {
                None
            },
            None => None,
        },
    };
    let payload = if updates.len() == 0 {
        None
    } else {
        Some(TicketPayload::Generic(JsonValue::Object(updates)))
    };
    ToolDecision::Record {
        change: PendingChange {
            action_type: SyncActionType::Update,
            entity_id: id,
            entity_type: kind,
            payload,
            status: None,
            notes,
        },
        reply: owned("Ticket edited."),
        follow_up,
    }
}

/// How many bytes UTF-8 takes for `c`.
pub open spec fn utf8_width(c: char) -> int {
    if (c as u32) < 0x80 {
        1
    } else if (c as u32) < 0x800 {
        2
    } else if (c as u32) < 0x10000 {
        3
    } else {
        4
    }
}

/// The longest start of `s` that fits in `n` bytes of UTF-8: the text's
/// first `n` bytes where they end between two characters (where they end
/// inside one, that character is left out).
pub open spec fn prefix_of(s: Seq<char>, n: int) -> Seq<char>
    decreases s.len(),
{
    if s.len() == 0 || utf8_width(s[0]) > n {
        Seq::empty()
    } else {
        seq![s[0]] + prefix_of(s.drop_first(), n - utf8_width(s[0]))
    }
}

/// The longest start of `s` that fits in `n` bytes (see `prefix_of`).
fn prefix_text(s: &str, n: usize) -> (r: String)
    ensures
        r@ == prefix_of(s@, n as int),
{
    let cs = chars_of(s);
    let mut i: usize = 0;
    let mut used: usize = 0;
    proof {
        assert(s@.take(0) + s@.skip(0) =~= s@);
        assert(s@.take(0) + prefix_of(s@.skip(0), n as int) =~= prefix_of(s@, n as int));
    }
    while i < cs.len()
        invariant
            cs@ == s@,
            i <= cs.len(),
            used <= n,
            prefix_of(s@, n as int) == s@.take(i as int) + prefix_of(s@.skip(i as int), n - used),
        ensures
            i <= cs.len(),
            used <= n,
            prefix_of(s@, n as int) == s@.take(i as int) + prefix_of(s@.skip(i as int), n - used),
            i == cs.len() || utf8_width(s@[i as int]) > n - used,
        decreases cs.len() - i,
    {
        let c = cs[i];
        let w: usize = if (c as u32) < 0x80 {
            1
        } else if (c as u32) < 0x800 {
            2
        } else if (c as u32) < 0x10000 {
            3
        } else {
            4
        };
        assert(w == utf8_width(c));
        assert(s@.skip(i as int)[0] == c);
        if w > n - used {
            break;
        }
        proof {
            let t = s@.skip(i as int);
            assert(t.drop_first() =~= s@.skip(i + 1));
            assert(s@.take(i + 1) =~= s@.take(i as int) + seq![c]);
            assert(prefix_of(t, n - used) == seq![c] + prefix_of(t.drop_first(), n - used - w));
            assert(s@.take(i as int) + (seq![c] + prefix_of(s@.skip(i + 1), n - used - w)) =~= s@.take(i + 1)
                + prefix_of(s@.skip(i + 1), n - used - w));
        }
        used = used + w;
        i = i + 1;
    }
    proof {
        let t = s@.skip(i as int);
        if i == cs.len() {
            assert(t.len() == 0);
        }
        assert(prefix_of(t, n - used) =~= Seq::<char>::empty());
        assert(s@.take(i as int) + Seq::<char>::empty() =~= s@.take(i as int));
    }
    let r = string_from_chars(&cs.as_slice()[0..i]);
    assert(r@ =~= s@.take(i as int));
    r
}

/// The directions placeholder of a new trip, filled in by the server.
pub open spec fn pending_directions() -> JsonV {
    object_of(
        seq![
            ("steps"@, JsonV::Array(Seq::empty())),
            ("total_duration"@, JsonV::Str("Enriching via Server..."@)),
            ("total_duration_minutes"@, JsonV::Null),
            ("error"@, JsonV::Null),
        ],
    )
}

/// The directions placeholder of a new trip.
fn directions_placeholder() -> (r: JsonValue)
    ensures
        r@ == pending_directions(),
{
    let mut pairs: Vec<(String, JsonValue)> = Vec::new();
    pairs.push((owned("steps"), JsonValue::Array(Vec::new())));
    pairs.push((owned("total_duration"), JsonValue::text("Enriching via Server...")));
    pairs.push((owned("total_duration_minutes"), JsonValue::Null));
    pairs.push((owned("error"), JsonValue::Null));
    proof {
        lemma_entries_view(pairs@);
        crate::json::lemma_items_view(Seq::<JsonValue>::empty());
        assert(crate::json::items_view(Seq::<JsonValue>::empty()) =~= Seq::<JsonV>::empty());
        assert(entries_view(pairs@) =~= seq![
            ("steps"@, JsonV::Array(Seq::empty())),
            ("total_duration"@, JsonV::Str("Enriching via Server..."@)),
            ("total_duration_minutes"@, JsonV::Null),
            ("error"@, JsonV::Null),
        ]);
    }
    object_from_pairs(pairs)
}

/// Both ends of a trip read from a request, or the failure reply.
pub open spec fn trip_ends(args: JsonV, ls: Seq<SavedLocation>) -> Result<
    ((Seq<char>, LocationV), (Seq<char>, LocationV)),
    Seq<char>,
> {
    match commute_location_spec(args, ls, "origin_location"@, "origin"@, "origin location"@) {
        Err(e) => Err(failed(e)),
        Ok(o) => match commute_location_spec(
            args,
            ls,
            "destination_location"@,
            "destination"@,
            "destination location"@,
        ) {
            Err(e) => Err(failed(e)),
            Ok(d) => Ok((o, d)),
        },
    }
}

/// A new commute from `o` to `d`.
pub open spec fn new_commute(
    title: Seq<char>,
    label: Option<Seq<char>>,
    o: (Seq<char>, LocationV),
    d: (Seq<char>, LocationV),
    departure: Option<CommuteDepartureTime>,
    deadline: Option<Seq<char>>,
    days: Option<Seq<char>>,
    live: Option<bool>,
    minutes: Option<i64>,
    directions: Option<JsonV>,
    completed: Option<bool>,
) -> PayloadV {
    PayloadV::Commute {
        title,
        label,
        origin: o.0,
        origin_location: Some(o.1),
        destination: d.0,
        destination_location: Some(d.1),
        departure_time: departure,
        scheduled_time_iso: None,
        rrule: None,
        deadline,
        days,
        related_event_id: None,
        live,
        minutes_remaining: minutes,
        directions,
        completed,
    }
}

/// A new commute to record, answered with `reply`.
pub open spec fn create_commute(id: Seq<char>, payload: PayloadV, status: TicketStatus, reply: Seq<char>) -> DecisionV {
    DecisionV::Record {
        change: ChangeV {
            action_type: SyncActionType::Create,
            entity_id: id,
            entity_type: "COMMUTE"@,
            payload: Some(payload),
            status: Some(status),
            notes: None,
        },
        reply,
        follow_up: None,
    }
}

/// What `add_commute` asks for.
pub open spec fn add_commute_spec(args: JsonV, ls: Seq<SavedLocation>, id: Seq<char>) -> DecisionV {
    let label = str_or(args, "label"@, "commute"@);
    let deadline = str_or(args, "deadline"@, "09:00"@);
    let days = str_or(args, "days"@, "monday,tuesday,wednesday,thursday,friday"@);
    match trip_ends(args, ls) {
        Err(e) => DecisionV::Reply(e),
        Ok((o, d)) => match departure_arg_spec(args, "departure_time"@, "departure time"@) {
            Err(e) => DecisionV::Reply(failed(e)),
            Ok(dep) => create_commute(
                id,
                new_commute(
                    label + ": "@ + prefix_of(o.0, 15) + "... -> "@ + prefix_of(d.0, 15) + "... @ "@ + deadline,
                    Some(label),
                    o,
                    d,
                    Some(
                        match dep {
                            Some(x) => x,
                            None => CommuteDepartureTime::RelativeToArrival {
                                buffer_minutes: DEFAULT_COMMUTE_BUFFER_MINUTES,
                            },
                        },
                    ),
                    Some(deadline),
                    Some(days),
                    None,
                    None,
                    None,
                    Some(false),
                ),
                TicketStatus::Idle,
                "Commute registered."@,
            ),
        },
    }
}

/// Reads both ends of a trip, or the failure reply.
fn read_trip_ends(args: &JsonValue, settings: &UserSettings) -> (r: Result<
    ((String, TicketLocation), (String, TicketLocation)),
    String,
>)
    ensures
        match r {
            Ok(((ot, ol), (dt, dl))) => trip_ends(args@, settings.saved_locations@) == Ok::<
                ((Seq<char>, LocationV), (Seq<char>, LocationV)),
                Seq<char>,
            >(((ot@, ol@), (dt@, dl@))),
            Err(e) => trip_ends(args@, settings.saved_locations@) == Err::<
                ((Seq<char>, LocationV), (Seq<char>, LocationV)),
                Seq<char>,
            >(e@),
        },
{
    let o = match resolve_commute_location(args, "origin_location", "origin", "origin location", settings) {
        Ok(o) => o,
        Err(e) => {
            return Err(failure(e.as_str()));
        },
    };
    let d = match resolve_commute_location(
        args,
        "destination_location",
        "destination",
        "destination location",
        settings,
    ) {
        Ok(d) => d,
        Err(e) => {
            return Err(failure(e.as_str()));
        },
    };
    Ok((o, d))
}

/// Decides `add_commute` for a new ticket `entity_id`.
pub fn add_commute_decision(args: &JsonValue, settings: &UserSettings, entity_id: String) -> (r: ToolDecision)
    ensures
        r@ == add_commute_spec(args@, settings.saved_locations@, entity_id@),
{
    let label = arg_or(args, "label", "commute");
    let deadline = arg_or(args, "deadline", "09:00");
    let days = arg_or(args, "days", "monday,tuesday,wednesday,thursday,friday");
    let ((origin, origin_location), (destination, destination_location)) = match read_trip_ends(args, settings) {
        Ok(ends) => ends,
        Err(e) => {
            return ToolDecision::Reply(e);
        },
    };
    let departure = match parse_departure_time_arg(args, "departure_time", "departure time") {
        Ok(Some(d)) => d,
        Ok(None) => CommuteDepartureTime::RelativeToArrival { buffer_minutes: DEFAULT_COMMUTE_BUFFER_MINUTES },
        Err(e) => {
            return ToolDecision::Reply(failure(e.as_str()));
        },
    };
    let o15 = prefix_text(origin.as_str(), 15);
    let d15 = prefix_text(destination.as_str(), 15);
    let head = concat4(label.as_str(), ": ", o15.as_str(), "... -> ");
    let title = concat4(head.as_str(), d15.as_str(), "... @ ", deadline.as_str());
    let payload = TicketPayload::Commute {
        title,
        label: Some(label),
        origin,
        origin_location: Some(origin_location),
        destination,
        destination_location: Some(destination_location),
        departure_time: Some(departure),
        scheduled_time_iso: None,
        rrule: None,
        deadline: Some(deadline),
        days: Some(days),
        related_event_id: None,
        live: None,
        minutes_remaining: None,
        directions: None,
        completed: Some(false),
    };
    ToolDecision::Record {
        change: PendingChange {
            action_type: SyncActionType::Create,
            entity_id,
            entity_type: owned("COMMUTE"),
            payload: Some(payload),
            status: Some(TicketStatus::Idle),
            notes: None,
        },
        reply: owned("Commute registered."),
        follow_up: None,
    }
}

/// What `get_directions` asks for.
pub open spec fn get_directions_spec(args: JsonV, ls: Seq<SavedLocation>, id: Seq<char>) -> DecisionV {
    match trip_ends(args, ls) {
        Err(e) => DecisionV::Reply(e),
        Ok((o, d)) => create_commute(
            id,
            new_commute(
                "Directions: "@ + prefix_of(o.0, 15) + "... -> "@ + prefix_of(d.0, 15) + "..."@,
                None,
                o,
                d,
                None,
                None,
                None,
                None,
                None,
                Some(pending_directions()),
                None,
            ),
            TicketStatus::InFocus,
            "Directions ticket created. Enrichment pending server sync."@,
        ),
    }
}

/// Decides `get_directions` for a new ticket `entity_id`.
pub fn get_directions_decision(args: &JsonValue, settings: &UserSettings, entity_id: String) -> (r: ToolDecision)
    ensures
        r@ == get_directions_spec(args@, settings.saved_locations@, entity_id@),
{
    let ((origin, origin_location), (destination, destination_location)) = match read_trip_ends(args, settings) {
        Ok(ends) => ends,
        Err(e) => {
            return ToolDecision::Reply(e);
        },
    };
    let o15 = prefix_text(origin.as_str(), 15);
    let d15 = prefix_text(destination.as_str(), 15);
    let title = concat5("Directions: ", o15.as_str(), "... -> ", d15.as_str(), "...");
    let payload = TicketPayload::Commute {
        title,
        label: None,
        origin,
        origin_location: Some(origin_location),
        destination,
        destination_location: Some(destination_location),
        departure_time: None,
        scheduled_time_iso: None,
        rrule: None,
        deadline: None,
        days: None,
        related_event_id: None,
        live: None,
        minutes_remaining: None,
        directions: Some(directions_placeholder()),
        completed: None,
    };
    ToolDecision::Record {
        change: PendingChange {
            action_type: SyncActionType::Create,
            entity_id,
            entity_type: owned("COMMUTE"),
            payload: Some(payload),
            status: Some(TicketStatus::InFocus),
            notes: None,
        },
        reply: owned("Directions ticket created. Enrichment pending server sync."),
        follow_up: None,
    }
}

/// The minutes a live trip has before its deadline (30 unless given).
pub open spec fn live_minutes(args: JsonV) -> i64 {
    match jv_get_i64(args, "minutes_until_deadline"@) {
        Some(m) => m,
        None => 30,
    }
}

/// What `start_live_directions` asks for.
pub open spec fn start_live_spec(args: JsonV, ls: Seq<SavedLocation>, id: Seq<char>) -> DecisionV {
    match trip_ends(args, ls) {
        Err(e) => DecisionV::Reply(e),
        Ok((o, d)) => create_commute(
            id,
            new_commute(
                "Trip to "@ + prefix_of(d.0, 40),
                None,
                o,
                d,
                None,
                None,
                None,
                Some(true),
                Some(live_minutes(args)),
                Some(pending_directions()),
                None,
            ),
            TicketStatus::InFocus,
            "Live tracking created. Waiting on server sync for polling."@,
        ),
    }
}

/// A trip that `get_directions` or `start_live_directions` records takes the
/// focus: once the change is queued as an action (same kind, id and status)
/// and replayed on any stack, the new commute is the only ticket in focus.
pub proof fn lemma_trip_takes_focus(
    live: bool,
    args: JsonV,
    ls: Seq<SavedLocation>,
    id: Seq<char>,
    s: Seq<TicketV>,
    a: SyncAction,
)
    requires
        (if live {
            start_live_spec(args, ls, id)
        } else {
            get_directions_spec(args, ls, id)
        }) matches DecisionV::Record { change, .. } && a.action_type == change.action_type && a.entity_id@
            == change.entity_id && a.status == change.status,
    ensures
        exists|f: int|
            0 <= f < project_step(s, a).len() && #[trigger] project_step(s, a)[f].id == a.entity_id@
                && project_step(s, a)[f].status == TicketStatus::InFocus && forall|i: int|
                0 <= i < project_step(s, a).len() && i != f ==> #[trigger] project_step(s, a)[i].status
                    != TicketStatus::InFocus,
{
    lemma_focus_taken(s, a);
}

/// Decides `start_live_directions` for a new ticket `entity_id`.
pub fn start_live_decision(args: &JsonValue, settings: &UserSettings, entity_id: String) -> (r: ToolDecision)
    ensures
        r@ == start_live_spec(args@, settings.saved_locations@, entity_id@),
{
    let minutes = match args.get_i64("minutes_until_deadline") {
        Some(m) => m,
        None => 30,
    };
    let ((origin, origin_location), (destination, destination_location)) = match read_trip_ends(args, settings) {
        Ok(ends) => ends,
        Err(e) => {
            return ToolDecision::Reply(e);
        },
    };
    let d40 = prefix_text(destination.as_str(), 40);
    let title = concat2("Trip to ", d40.as_str());
    let payload = TicketPayload::Commute {
        title,
        label: None,
        origin,
        origin_location: Some(origin_location),
        destination,
        destination_location: Some(destination_location),
        departure_time: None,
        scheduled_time_iso: None,
        rrule: None,
        deadline: None,
        days: None,
        related_event_id: None,
        live: Some(true),
        minutes_remaining: Some(minutes),
        directions: Some(directions_placeholder()),
        completed: None,
    };
    ToolDecision::Record {
        change: PendingChange {
            action_type: SyncActionType::Create,
            entity_id,
            entity_type: owned("COMMUTE"),
            payload: Some(payload),
            status: Some(TicketStatus::InFocus),
            notes: None,
        },
        reply: owned("Live tracking created. Waiting on server sync for polling."),
        follow_up: None,
    }
}

/// How long an agent task's countdown lasts unless the request says.
pub const DEFAULT_COUNTDOWN_MINUTES: i64 = 10;

/// The countdown length a request asks for (ten minutes unless given).
pub open spec fn countdown_minutes(args: JsonV) -> i64 {
    match jv_get_i64(args, "duration_minutes"@) {
        Some(m) => m,
        None => DEFAULT_COUNTDOWN_MINUTES,
    }
}

/// What `create_agent_task` asks for, given when it expires.
pub open spec fn create_countdown_spec(args: JsonV, expires_at: Seq<char>, id: Seq<char>) -> DecisionV {
    DecisionV::Record {
        change: ChangeV {
            action_type: SyncActionType::Create,
            entity_id: id,
            entity_type: "COUNTDOWN"@,
            payload: Some(
                PayloadV::Countdown {
                    title: str_or(args, "title"@, "Countdown"@),
                    duration_minutes: countdown_minutes(args),
                    expires_at: Some(expires_at),
                },
            ),
            status: Some(TicketStatus::Idle),
            notes: None,
        },
        reply: "Countdown created locally."@,
        follow_up: None,
    }
}

/// Decides `create_agent_task` once its expiry is known.
pub fn create_countdown_decision(args: &JsonValue, expires_at: String, entity_id: String) -> (r: ToolDecision)
    ensures
        r@ == create_countdown_spec(args@, expires_at@, entity_id@),
{
    let title = arg_or(args, "title", "Countdown");
    let duration = match args.get_i64("duration_minutes") {
        Some(m) => m,
        None => DEFAULT_COUNTDOWN_MINUTES,
    };
    ToolDecision::Record {
        change: PendingChange {
            action_type: SyncActionType::Create,
            entity_id,
            entity_type: owned("COUNTDOWN"),
            payload: Some(
                TicketPayload::Countdown { title, duration_minutes: duration, expires_at: Some(expires_at) },
            ),
            status: Some(TicketStatus::Idle),
            notes: None,
        },
        reply: owned("Countdown created locally."),
        follow_up: None,
    }
}

/// The reply to a tool the model made up.
pub open spec fn unknown_tool_reply(name: Seq<char>) -> Seq<char> {
    "⚠️ Tool failed: unknown tool '"@ + name
        + "'. The agent should use only valid tool names from the available tool list."@
}

/// How the schedule of a request may read: none without an `rrule` text,
/// else what reading that text may give.
pub open spec fn schedule_read(args: JsonV, sched: Option<Result<(UtcTimestamp, Option<Seq<char>>), Seq<char>>>) -> bool {
    match jv_get_str(args, "rrule"@) {
        None => sched is None,
        Some(t) => sched matches Some(x) && schedule_fits(t, x),
    }
}

/// What a tool call asks for, given its schedule, a fresh id and the
/// countdown expiry.
pub open spec fn tool_call_spec(
    name: Seq<char>,
    args: JsonV,
    ls: Seq<SavedLocation>,
    ts: Seq<Ticket>,
    sched: Option<Result<(UtcTimestamp, Option<Seq<char>>), Seq<char>>>,
    id: Seq<char>,
    expires_at: Seq<char>,
) -> DecisionV {
    if name == "create_ticket"@ {
        create_ticket_spec(args, ls, sched, id)
    } else if name == "delete_ticket"@ {
        delete_ticket_spec(args, ts)
    } else if name == "delete_all_tickets"@ {
        delete_all_spec(ts)
    } else if name == "edit_ticket"@ {
        edit_ticket_spec(args, ls, ts, sched)
    } else if name == "add_commute"@ {
        add_commute_spec(args, ls, id)
    } else if name == "remove_commute"@ {
        remove_commute_spec(args)
    } else if name == "get_directions"@ {
        get_directions_spec(args, ls, id)
    } else if name == "start_live_directions"@ {
        start_live_spec(args, ls, id)
    } else if name == "create_agent_task"@ {
        create_countdown_spec(args, expires_at, id)
    } else {
        DecisionV::Reply(unknown_tool_reply(name))
    }
}

/// Reads the request's schedule, if it has one.
fn read_schedule(args: &JsonValue) -> (r: Option<Result<(UtcTimestamp, Option<String>), String>>)
    ensures
        schedule_read(args@, opt_schedule(r)),
{
    match args.get_string("rrule") {
        Some(t) => Some(parse_agent_rrule(t.as_str())),
        None => None,
    }
}

/// Decides what a tool call asks of the stack, with the current tickets
/// and the user's settings; new tickets get fresh ids.
pub fn decide_tool_call(name: &str, args: &JsonValue, settings: &UserSettings, tasks: &Vec<Ticket>) -> (r:
    ToolDecision)
    requires
        name@ == "create_agent_task"@ ==> -MAX_COUNTDOWN_MINUTES <= countdown_minutes(args@)
            <= MAX_COUNTDOWN_MINUTES,
    ensures
        exists|sched: Option<Result<(UtcTimestamp, Option<Seq<char>>), Seq<char>>>, id: Seq<char>, exp: Seq<char>|
            ((name@ == "create_ticket"@ || name@ == "edit_ticket"@) ==> schedule_read(args@, sched))
                && (name@ == "create_agent_task"@ ==> exists|now: UtcTimestamp|
                #![trigger expiry_text(now, countdown_minutes(args@))]
                exp == expiry_text(now, countdown_minutes(args@))) && id.len() == 36 && r@ == tool_call_spec(
                name@,
                args@,
                settings.saved_locations@,
                tasks@,
                sched,
                id,
                exp,
            ),
{
    let sched = if str_eq(name, "create_ticket") || str_eq(name, "edit_ticket") {
        read_schedule(args)
    } else {
        None
    };
    let ghost sv = opt_schedule(sched);
    let id = new_uuid();
    let ghost idv = id@;
    let r = if str_eq(name, "create_ticket") {
        create_ticket_decision(args, settings, sched, id)
    } else if str_eq(name, "delete_ticket") {
        delete_ticket_decision(args, tasks)
    } else if str_eq(name, "delete_all_tickets") {
        delete_all_decision(tasks)
    } else if str_eq(name, "edit_ticket") {
        edit_ticket_decision(args, settings, tasks, sched)
    } else if str_eq(name, "add_commute") {
        add_commute_decision(args, settings, id)
    } else if str_eq(name, "remove_commute") {
        remove_commute_decision(args)
    } else if str_eq(name, "get_directions") {
        get_directions_decision(args, settings, id)
    } else if str_eq(name, "start_live_directions") {
        start_live_decision(args, settings, id)
    } else if str_eq(name, "create_agent_task") {
        let minutes = match args.get_i64("duration_minutes") {
            Some(m) => m,
            None => DEFAULT_COUNTDOWN_MINUTES,
        };
        assert(minutes == countdown_minutes(args@));
        let expires_at = expires_after_minutes(minutes);
        let ghost ev = expires_at@;
        let d = create_countdown_decision(args, expires_at, id);
        assert(((name@ == "create_ticket"@ || name@ == "edit_ticket"@) ==> schedule_read(args@, sv))
            && (name@ == "create_agent_task"@ ==> exists|now: UtcTimestamp|
            #![trigger expiry_text(now, countdown_minutes(args@))]
            ev == expiry_text(now, countdown_minutes(args@))) && idv.len() == 36 && d@ == tool_call_spec(
            name@,
            args@,
            settings.saved_locations@,
            tasks@,
            sv,
            idv,
            ev,
        ));
        return d;
    } else {
        ToolDecision::Reply(
            concat3(
                "⚠️ Tool failed: unknown tool '",
                name,
                "'. The agent should use only valid tool names from the available tool list.",
            ),
        )
    };
    let ghost zero = UtcTimestamp { seconds: 0, nanos: 0 };
    let ghost ex = expiry_text(zero, countdown_minutes(args@));
    assert(((name@ == "create_ticket"@ || name@ == "edit_ticket"@) ==> schedule_read(args@, sv))
        && (name@ == "create_agent_task"@ ==> exists|now: UtcTimestamp|
        #![trigger expiry_text(now, countdown_minutes(args@))]
        ex == expiry_text(now, countdown_minutes(args@))) && idv.len() == 36 && r@ == tool_call_spec(
        name@,
        args@,
        settings.saved_locations@,
        tasks@,
        sv,
        idv,
        ex,
    ));
    r
}

/// The reply when a follow-up step (keeping an event's commute in line)
/// fails after the change was recorded.
pub fn follow_up_failure(error: &str) -> (r: String)
    ensures
        r@ == failed(error@),
{
    concat3("⚠️ Tool failed: ", error, ".")
}

/// The reply when the change a tool call decided on could not be stored:
/// deleting and editing report the error briefly, the other tools also ask
/// the model to rethink.
pub open spec fn store_failure_spec(tool: Seq<char>, error: Seq<char>) -> Seq<char> {
    if tool == "delete_ticket"@ || tool == "edit_ticket"@ {
        "⚠️ Tool failed: "@ + tool + ". Details: "@ + error
    } else {
        "⚠️ Tool failed: "@ + tool
            + ". The agent should analyze this error and try again with corrected parameters or a different approach. Details: "@
            + error
    }
}

/// Writes the reply when a decided change could not be stored.
pub fn store_failure_reply(tool: &str, error: &str) -> (r: String)
    ensures
        r@ == store_failure_spec(tool@, error@),
{
    if str_eq(tool, "delete_ticket") || str_eq(tool, "edit_ticket") {
        concat4("⚠️ Tool failed: ", tool, ". Details: ", error)
    } else {
        concat4(
            "⚠️ Tool failed: ",
            tool,
            ". The agent should analyze this error and try again with corrected parameters or a different approach. Details: ",
            error,
        )
    }
}

/// The reply when the tickets to delete could not be read.
pub fn tasks_unavailable_reply(error: &str) -> (r: String)
    ensures
        r@ == "⚠️ Tool failed: Could not retrieve tasks: "@ + error@,
{
    concat2("⚠️ Tool failed: Could not retrieve tasks: ", error)
}

} // verus!
