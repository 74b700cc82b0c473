//! The prompts the assistant and the planner start from: a digest of the
//! latest stack changes, and the two prompt texts filled in with the user's
//! context.
use vstd::prelude::*;
use crate::locations::{format_saved_locations_for_prompt, saved_locations_prompt};
use crate::settings::UserSettings;
use crate::sync::{SyncAction, SyncActionType};
use crate::text::{join_by, join_strings, texts, owned};
use crate::ticket::title_of;

verus! {

/// How many of the latest stack changes the prompts recall.
pub const RECENT_ACTIONS_SHOWN: usize = 5;

/// The rules closing the assistant's prompt.
pub const SYSTEM_PROMPT_RULES: &'static str = "

You are a ticket management assistant for HStack.
You manage a 'stack' of tickets for the user.

CRITICAL: TEMPORAL EXTRACTION - RRULE FORMAT (RFC 5545)
The `rrule` field MUST be a valid RRULE string following iCalendar RFC 5545.

RRULE STRUCTURE:
- DTSTART: Start datetime (YYYYMMDDTHHMMSSZ) - ALWAYS append 'Z' and calculate the UTC time using the user's offset.
- RRULE: Recurrence rule (optional, for repeating events)

COMMON PATTERNS:
- One-time tomorrow 9am: DTSTART:20260320T090000Z
- Every Monday 9am: DTSTART:20260324T090000Z RRULE:FREQ=WEEKLY;BYDAY=MO
- Daily 9am: DTSTART:20260320T090000Z RRULE:FREQ=DAILY

RULES:
1. Calculate DTSTART in UTC based on the user's relative date and local timezone offset.
2. Any time-bearing ticket may use the `rrule` field. Use `DTSTART:...` for one-time scheduling, and add `RRULE:...` when the ticket repeats.
3. Separate DTSTART and RRULE with a space.

GROUNDING AND PROVENANCE RULES:
1. Only use names, dates, places, and facts that appear in the current user message, CURRENT STACK, RECENT ACTIONS, or earlier turns in this session.
2. Never invent missing specifics. If a ticket update requires a concrete value and the user did not provide it, ask a clarification question unless a planning default below clearly applies.
3. If the user asks where a fact came from, answer only with grounded provenance. If you inferred something incorrectly, say so plainly instead of claiming the user provided it.
4. If the place is one of SAVED LOCATIONS, use the saved location reference with its location_id.
5. If the place is not saved, only use a concrete non-ambiguous address or clear place name.
6. If the place is ambiguous, such as 'my place', 'home', or 'work', ask a clarification question instead of calling a tool.

PROACTIVE PLANNING RULES:
1. HStack should reduce the user's mental load. When the user asks you to \"be smart\", \"handle it\", or otherwise implies they want proactive planning, choose a sensible default instead of bouncing the decision back.
2. If the user wants a task done before a known dated event, prefer adding or editing the ticket's schedule instead of only writing that constraint in notes.
3. Default planning time for a one-time task with a date but no explicit time is 10:00 local time.
4. If the user asks for something before a known dated event and gives no time, schedule it for 10:00 local time on the previous day unless that would already be in the past; if it would be in the past, choose the nearest reasonable future time that still satisfies the request.
5. When you apply a planning default, mention the assumption briefly in your natural-language response.
6. If the user mentions a concrete future commitment that affects planning, such as a meeting, workout, yoga session, appointment, dinner, or trip, and it is not already in CURRENT STACK, add it as its own ticket as well as updating the original task when appropriate.
7. Use EVENT for a specific scheduled commitment like \"yoga from 10 to 12\". Include the date/time in `rrule` or `DTSTART`, and include duration when the user gave a time range.

CRITICAL: TOOL CALLING RULES
1. ALWAYS use tools for state changes - never just describe what you would do.
2. Extract parameters EXACTLY from user input - don't invent values.
3. When editing, only include fields that need to change.
4. If multiple actions needed, make multiple tool calls.
5. If a request implies a scheduling change, update the ticket's `rrule`/`DTSTART` rather than burying the timing in notes.
6. **IF A TOOL CALL FAILS**: You will see a ⚠️ error message. Read it, correct the arguments, and retry only if you can improve them.

TICKET TYPES:
 HABIT: Routines and recurring commitments. Can use `rrule`.
 TASK: Actions or reminders. Can use `rrule` for one-time or repeating scheduling when the user gives a date/time.
 EVENT: Time-specific appointments, gatherings, meetings, and calendar-like items. Can use `rrule` for one-time or repeating scheduling.

TOOL EXAMPLES:
- create_ticket: {\"type\": \"TASK\", \"title\": \"Walk the dog\", \"rrule\": \"DTSTART:20260320T140000Z\"}
- edit_ticket: {\"task_id\": \"uuid\", \"rrule\": \"DTSTART:20260322T090000Z\"}
- edit_ticket: {\"task_id\": \"uuid\", \"title\": \"Walk the dog (Jimbo)\"}
- edit_ticket: {\"task_id\": \"uuid\", \"rrule\": \"DTSTART:20260326T100000Z\"}
- create_ticket: {\"type\": \"EVENT\", \"title\": \"Yoga\", \"rrule\": \"DTSTART:20260326T100000Z\", \"duration_minutes\": 120}
- create_ticket: {\"type\": \"HABIT\", \"title\": \"Morning workout\", \"rrule\": \"DTSTART:20260320T070000Z RRULE:FREQ=WEEKLY;BYDAY=MO,TU,WE,TH,FR\"}
- create_ticket: {\"type\": \"EVENT\", \"title\": \"Jimbo birthday party\", \"rrule\": \"DTSTART:20260327T190000Z\"}
- create_ticket: {\"type\": \"EVENT\", \"title\": \"Weekly team standup\", \"rrule\": \"DTSTART:20260324T083000Z RRULE:FREQ=WEEKLY;BYDAY=MO,WE,FR\"}
- create_ticket: {\"type\": \"EVENT\", \"title\": \"Dinner at home\", \"location\": {\"location_type\": \"saved_location\", \"location_id\": \"loc-home\"}}

REMEMBER:
- NO EMOJIS in titles.
- Keep titles clean and concise.
- Date qualifiers and times belong in `rrule`/`DTSTART`, not in the title.";

/// The opening of the planner's prompt.
pub const PLANNER_PROMPT_HEAD: &'static str = "You are the HStack planning engine. Output ONLY valid JSON. Do not output prose, markdown, or code fences.

USER CONTEXT:
- Local Time: ";

/// The answer format and rules closing the planner's prompt.
pub const PLANNER_PROMPT_RULES: &'static str = "

Return exactly this JSON shape:
{
  \"user_goal\": \"string\",
  \"grounded_facts\": [\"string\"],
  \"time_constraints\": [\"string\"],
  \"existing_tickets_relevant\": [\"string\"],
    \"dependent_tickets_impacted\": [{
        \"ticket_id\": \"string\",
        \"title\": \"string|null\",
        \"reason\": \"string\",
        \"action_required\": true
    }],
  \"new_commitments_detected\": [{
    \"type\": \"EVENT|TASK|HABIT|null\",
    \"title\": \"string|null\",
    \"rrule\": \"string|null\",
    \"duration_minutes\": 0
  }],
  \"proactive_opportunities\": [\"string\"],
  \"assumptions_to_apply\": [\"string\"],
  \"tool_actions\": [{
    \"tool\": \"valid tool name\",
    \"arguments\": {}
  }],
  \"user_reply_strategy\": \"string\"
}

Planning rules:
1. Use only grounded facts from the current user message, prior conversation turns, CURRENT STACK, or RECENT ACTIONS.
2. Never invent names, dates, or provenance.
3. Prefer proactive planning that reduces the user's mental load.
4. If a user mentions a concrete future commitment that affects planning and it is not already in CURRENT STACK, include a create_ticket action for it when appropriate.
5. If a user wants something done before a known dated event, prefer scheduling the task rather than writing the constraint in notes.
6. Default one-time planning time is 10:00 local when a date is known but no time is given.
7. If the user gives a blocking time range on that date, schedule around it and add the blocking commitment itself when it is concrete and future-facing.
8. When moving or rescheduling a dated ticket, inspect CURRENT STACK for dependent tickets whose purpose or timing is anchored to that ticket, person, or occasion, and record them in dependent_tickets_impacted.
9. If a dependent ticket would become misaligned after the change, set action_required to true and include the necessary edit_ticket action in tool_actions.
10. tool_actions must use only AVAILABLE TOOLS and arguments must match the tool schema exactly.
11. If no tool action is needed, return an empty tool_actions array.
12. If a place matches SAVED LOCATIONS, use its location_id instead of raw text.
13. If a place is ambiguous, do not emit a tool action for it; require a clarification question in user_reply_strategy.";

/// The name `Debug` prints for a kind of stack change.
pub open spec fn action_type_name(t: SyncActionType) -> Seq<char> {
    match t {
        SyncActionType::Create => "Create"@,
        SyncActionType::Update => "Update"@,
        SyncActionType::Delete => "Delete"@,
    }
}

/// The name `Debug` prints for a kind of stack change.
pub fn action_type_debug(t: &SyncActionType) -> (r: &'static str)
    ensures
        r@ == action_type_name(*t),
{
    match t {
        SyncActionType::Create => "Create",
        SyncActionType::Update => "Update",
        SyncActionType::Delete => "Delete",
    }
}

/// One line of the digest: `- <kind>: <title> (<entity type>) at <time>`,
/// the title being `Unknown` for a change without payload.
pub open spec fn recent_action_line(a: SyncAction) -> Seq<char> {
    "- "@ + action_type_name(a.action_type) + ": "@ + match a.payload {
        Some(p) => title_of(p@),
        None => "Unknown"@,
    } + " ("@ + a.entity_type@ + ") at "@ + a.timestamp@
}

/// The lines of the digest: the latest changes first, at most five.
pub open spec fn recent_action_lines(s: Seq<SyncAction>) -> Seq<Seq<char>> {
    let n = if s.len() < RECENT_ACTIONS_SHOWN { s.len() as int } else { RECENT_ACTIONS_SHOWN as int };
    Seq::new(n as nat, |i: int| recent_action_line(s[s.len() - 1 - i]))
}

/// The digest of the latest stack changes, one line each, newest first.
pub open spec fn recent_actions_spec(s: Seq<SyncAction>) -> Seq<char> {
    join_by(recent_action_lines(s), "\n"@)
}

/// Writes the digest line of one change.
pub fn recent_action_text(a: &SyncAction) -> (r: String)
    ensures
        r@ == recent_action_line(*a),
{
    let title: &str = match &a.payload {
        Some(p) => p.get_title(),
        None => "Unknown",
    };
    let mut r = owned("- ");
    r.append(action_type_debug(&a.action_type));
    r.append(": ");
    r.append(title);
    r.append(" (");
    r.append(a.entity_type.as_str());
    r.append(") at ");
    r.append(a.timestamp.as_str());
    r
}

/// The digest of the latest stack changes: the last five of `actions`,
/// newest first, one line each.
pub fn recent_actions_text(actions: &[SyncAction]) -> (r: String)
    ensures
        r@ == recent_actions_spec(actions@),
{
    let n = actions.len();
    let count: usize = if n < RECENT_ACTIONS_SHOWN { n } else { RECENT_ACTIONS_SHOWN };
    let ghost want = recent_action_lines(actions@);
    let mut lines: Vec<String> = Vec::new();
    let mut i: usize = 0;
    while i < count
        invariant
            n == actions@.len(),
            count <= n,
            count == want.len(),
            want == recent_action_lines(actions@),
            i <= count,
            texts(lines@) == want.take(i as int),
        decreases count - i,
    {
        let line = recent_action_text(&actions[n - 1 - i]);
        let ghost old_lines = lines@;
        lines.push(line);
        proof {
            assert(want[i as int] == line@);
            assert(texts(lines@) =~= texts(old_lines).push(line@));
            assert(want.take(i + 1) =~= want.take(i as int).push(want[i as int]));
        }
        i = i + 1;
    }
    proof {
        assert(want.take(count as int) =~= want);
    }
    join_strings(&lines, "\n")
}

/// What the prompts are filled in with: the user's local clock, the stack
/// as JSON text, the saved places and the digest of the latest changes.
pub struct PromptContext {
    pub local_time: String,
    pub local_date: String,
    pub weekday: String,
    pub utc_offset: String,
    pub stack_json: String,
    pub saved_locations: String,
    pub recent_actions: String,
}

impl PromptContext {
    /// The context for the given clock readings and stack text, with the
    /// saved places of `settings` and the digest of `pending`.
    pub fn new(
        local_time: String,
        local_date: String,
        weekday: String,
        utc_offset: String,
        stack_json: String,
        settings: &UserSettings,
        pending: &[SyncAction],
    ) -> (r: PromptContext)
        ensures
            r.local_time == local_time,
            r.local_date == local_date,
            r.weekday == weekday,
            r.utc_offset == utc_offset,
            r.stack_json == stack_json,
            r.saved_locations@ == saved_locations_prompt(settings.saved_locations@),
            r.recent_actions@ == recent_actions_spec(pending@),
    {
        let saved_locations = format_saved_locations_for_prompt(settings.saved_locations.as_slice());
        let recent_actions = recent_actions_text(pending);
        PromptContext { local_time, local_date, weekday, utc_offset, stack_json, saved_locations, recent_actions }
    }
}

/// The assistant's prompt for a context.
pub open spec fn system_prompt_spec(c: PromptContext) -> Seq<char> {
    "\nRECENT ACTIONS:\n"@ + c.recent_actions@ + "\n\nCURRENT STACK:\n"@ + c.stack_json@
        + "\n\nUSER CONTEXT:\n- Local Time: "@ + c.local_time@ + "\n- Local Date: "@ + c.local_date@
        + "\n- Today is "@ + c.weekday@ + "\n- UTC Offset: "@ + c.utc_offset@
        + "\n\nSAVED LOCATIONS:\n"@ + c.saved_locations@ + SYSTEM_PROMPT_RULES@
}

/// The planner's prompt for a context and the tools offered (as JSON text).
pub open spec fn planner_prompt_spec(c: PromptContext, tools_json: Seq<char>) -> Seq<char> {
    PLANNER_PROMPT_HEAD@ + c.local_time@ + "\n- Local Date: "@ + c.local_date@ + "\n- Today is "@
        + c.weekday@ + "\n- UTC Offset: "@ + c.utc_offset@ + "\n\nSAVED LOCATIONS:\n"@
        + c.saved_locations@ + "\n\nCURRENT STACK:\n"@ + c.stack_json@ + "\n\nRECENT ACTIONS:\n"@
        + c.recent_actions@ + "\n\nAVAILABLE TOOLS:\n"@ + tools_json + PLANNER_PROMPT_RULES@
}

/// Fills in the assistant's prompt: the digest, the stack, the user's
/// clock and saved places, then the assistant's rules.
pub fn system_prompt(c: &PromptContext) -> (r: String)
    ensures
        r@ == system_prompt_spec(*c),
{
    let mut r = owned("\nRECENT ACTIONS:\n");
    r.append(c.recent_actions.as_str());
    r.append("\n\nCURRENT STACK:\n");
    r.append(c.stack_json.as_str());
    r.append("\n\nUSER CONTEXT:\n- Local Time: ");
    r.append(c.local_time.as_str());
    r.append("\n- Local Date: ");
    r.append(c.local_date.as_str());
    r.append("\n- Today is ");
    r.append(c.weekday.as_str());
    r.append("\n- UTC Offset: ");
    r.append(c.utc_offset.as_str());
    r.append("\n\nSAVED LOCATIONS:\n");
    r.append(c.saved_locations.as_str());
    r.append(SYSTEM_PROMPT_RULES);
    r
}

/// Fills in the planner's prompt: the user's clock and saved places, the
/// stack, the digest and the tools, then the answer format and rules.
pub fn planner_prompt(c: &PromptContext, tools_json: &str) -> (r: String)
    ensures
        r@ == planner_prompt_spec(*c, tools_json@),
{
    let mut r = owned(PLANNER_PROMPT_HEAD);
    r.append(c.local_time.as_str());
    r.append("\n- Local Date: ");
    r.append(c.local_date.as_str());
    r.append("\n- Today is ");
    r.append(c.weekday.as_str());
    r.append("\n- UTC Offset: ");
    r.append(c.utc_offset.as_str());
    r.append("\n\nSAVED LOCATIONS:\n");
    r.append(c.saved_locations.as_str());
    r.append("\n\nCURRENT STACK:\n");
    r.append(c.stack_json.as_str());
    r.append("\n\nRECENT ACTIONS:\n");
    r.append(c.recent_actions.as_str());
    r.append("\n\nAVAILABLE TOOLS:\n");
    r.append(tools_json);
    r.append(PLANNER_PROMPT_RULES);
    r
}

} // verus!
