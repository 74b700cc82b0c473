//! The tools offered to the model for editing the stack, with their JSON schemas.
use vstd::prelude::*;
use crate::json::{JsonValue, JsonV, entries_view, items_view, lemma_entries_view, lemma_items_view};
use crate::update::{insert_all, insert_all_entries};
use crate::provider::{Tool, ToolFunction};

verus! {

/// The content of a tool: (type, name, description, parameters).
pub open spec fn tool_view(t: Tool) -> (Seq<char>, Seq<char>, Seq<char>, JsonV) {
    (t.tool_type@, t.function.name@, t.function.description@, t.function.parameters@)
}

/// The schema of one parameter: its JSON type and its description.
pub open spec fn prop_entry(p: (Seq<char>, Seq<char>, Seq<char>)) -> (Seq<char>, JsonV) {
    (p.0, JsonV::Object(seq![("description"@, JsonV::Str(p.2)), ("type"@, JsonV::Str(p.1))]))
}

/// The `properties` object of a schema listing `ps` (name, type, description).
pub open spec fn props_object(ps: Seq<(Seq<char>, Seq<char>, Seq<char>)>) -> Seq<(Seq<char>, JsonV)> {
    insert_all(Seq::empty(), ps.map_values(|p: (Seq<char>, Seq<char>, Seq<char>)| prop_entry(p)))
}

/// An object schema with the given parameters and, if any, required names.
pub open spec fn schema_of(ps: Seq<(Seq<char>, Seq<char>, Seq<char>)>, req: Option<Seq<Seq<char>>>) -> JsonV {
    match req {
        Some(names) => JsonV::Object(
            seq![
                ("properties"@, JsonV::Object(props_object(ps))),
                ("required"@, JsonV::Array(names.map_values(|n: Seq<char>| JsonV::Str(n)))),
                ("type"@, JsonV::Str("object"@)),
            ],
        ),
        None => JsonV::Object(
            seq![("properties"@, JsonV::Object(props_object(ps))), ("type"@, JsonV::Str("object"@))],
        ),
    }
}

/// A function tool with the given name, description and schema.
pub open spec fn tool_model(
    name: Seq<char>,
    description: Seq<char>,
    ps: Seq<(Seq<char>, Seq<char>, Seq<char>)>,
    req: Option<Seq<Seq<char>>>,
) -> (Seq<char>, Seq<char>, Seq<char>, JsonV) {
    ("function"@, name, description, schema_of(ps, req))
}

/// What the `create_ticket` tool is for.
pub const CREATE_TICKET_DESCRIPTION: &'static str = "Create a new ticket in the user's stack. Must specify the type of ticket (HABIT, EVENT, or TASK) and the title payload. Any of these ticket types may include an RRULE/DTSTART schedule when the user gives timing information.";

/// The `type` parameter of `create_ticket`.
pub const CREATE_TICKET_TYPE: &'static str = "The type of the ticket. MUST be exactly one of: HABIT, EVENT, TASK";

/// The `title` parameter of `create_ticket`.
pub const CREATE_TICKET_TITLE: &'static str = "The title or description of the ticket";

/// The `notes` parameter of `create_ticket`.
pub const CREATE_TICKET_NOTES: &'static str = "Optional: Detailed context, research results, or user preferences for this specific ticket. Use Markdown formatting.";

/// The `rrule` parameter of `create_ticket`.
pub const CREATE_TICKET_RRULE: &'static str = "Optional: RFC 5545 scheduling string for any time-bearing ticket type. Use 'DTSTART:YYYYMMDDTHHMMSS' for a one-time scheduled ticket, or 'DTSTART:YYYYMMDDTHHMMSS RRULE:FREQ=WEEKLY;BYDAY=MO' for a recurring ticket. Examples: DTSTART:20260320T090000Z (tomorrow 9am), DTSTART:20260324T090000Z RRULE:FREQ=WEEKLY;BYDAY=MO (every Monday)";

/// The `duration_minutes` parameter of `create_ticket`.
pub const CREATE_TICKET_DURATION_MINUTES: &'static str = "Optional: Estimated duration in minutes.";

/// What the `delete_ticket` tool is for.
pub const DELETE_TICKET_DESCRIPTION: &'static str = "Delete a ticket from the user's stack given its ID string.";

/// The `task_id` parameter of `delete_ticket`.
pub const DELETE_TICKET_TASK_ID: &'static str = "The exact ID of the task/ticket to delete";

/// What the `delete_all_tickets` tool is for.
pub const DELETE_ALL_TICKETS_DESCRIPTION: &'static str = "Deletes the entire stack of tickets for the user. Use this when the user wants to 'clear everything' or 'get rid of all tickets'.";

/// What the `edit_ticket` tool is for.
pub const EDIT_TICKET_DESCRIPTION: &'static str = "Edit an existing ticket in the user's stack. You can change its type, title, notes, duration, or RRULE/DTSTART timing for any scheduled ticket type.";

/// The `task_id` parameter of `edit_ticket`.
pub const EDIT_TICKET_TASK_ID: &'static str = "The ID of the ticket to edit";

/// The `type` parameter of `edit_ticket`.
pub const EDIT_TICKET_TYPE: &'static str = "The new type (HABIT, EVENT, or TASK). Skip if no change.";

/// The `title` parameter of `edit_ticket`.
pub const EDIT_TICKET_TITLE: &'static str = "The new title/description. Skip if no change.";

/// The `notes` parameter of `edit_ticket`.
pub const EDIT_TICKET_NOTES: &'static str = "The new detailed notes for this ticket. Skip if no change.";

/// The `rrule` parameter of `edit_ticket`.
pub const EDIT_TICKET_RRULE: &'static str = "The new RFC 5545 schedule for this ticket. Skip if no change. Format: 'DTSTART:YYYYMMDDTHHMMSSZ' for one-time scheduling or 'DTSTART:YYYYMMDDTHHMMSSZ RRULE:FREQ=WEEKLY;BYDAY=MO' for recurrence. Valid for HABIT, EVENT, and TASK tickets.";

/// The `duration_minutes` parameter of `edit_ticket`.
pub const EDIT_TICKET_DURATION_MINUTES: &'static str = "The new duration. Skip if no change.";

/// What the `add_commute` tool is for.
pub const ADD_COMMUTE_DESCRIPTION: &'static str = "Register a recurring commute for the user. Use this when the user says they regularly travel from one place to another at a specific time (e.g., 'I go from X to Y every morning at 9:30'). This will create a scheduled commute that automatically provides transit directions before the deadline.";

/// The `label` parameter of `add_commute`.
pub const ADD_COMMUTE_LABEL: &'static str = "A short label for the commute, e.g. 'morning_commute', 'evening_commute', 'work_commute'";

/// The `origin` parameter of `add_commute`.
pub const ADD_COMMUTE_ORIGIN: &'static str = "The full starting address or place name";

/// The `destination` parameter of `add_commute`.
pub const ADD_COMMUTE_DESTINATION: &'static str = "The full destination address or place name";

/// The `deadline` parameter of `add_commute`.
pub const ADD_COMMUTE_DEADLINE: &'static str = "The time the user needs to arrive, in HH:MM 24-hour format (e.g. '09:30', '18:00')";

/// The `days` parameter of `add_commute`.
pub const ADD_COMMUTE_DAYS: &'static str = "Comma-separated days of the week this commute applies, e.g. 'monday,tuesday,wednesday,thursday,friday'. Default is weekdays.";

/// What the `get_directions` tool is for.
pub const GET_DIRECTIONS_DESCRIPTION: &'static str = "Get real-time transit directions between two places. This creates a persistent COMMUTE ticket in the user's stack that renders expanded (in-focus) with step-by-step instructions.";

/// The `origin` parameter of `get_directions`.
pub const GET_DIRECTIONS_ORIGIN: &'static str = "The starting address or place name";

/// The `destination` parameter of `get_directions`.
pub const GET_DIRECTIONS_DESTINATION: &'static str = "The destination address or place name";

/// What the `remove_commute` tool is for.
pub const REMOVE_COMMUTE_DESCRIPTION: &'static str = "Remove/delete a registered commute by its task ID.";

/// The `task_id` parameter of `remove_commute`.
pub const REMOVE_COMMUTE_TASK_ID: &'static str = "The ID of the commute task to remove";

/// What the `start_live_directions` tool is for.
pub const START_LIVE_DIRECTIONS_DESCRIPTION: &'static str = "Start a live directions tracker for an URGENT or ONE-TIME trip with a deadline. This creates a persistent COMMUTE ticket with `live: true` that stays in-focus and updates every 5 minutes until the deadline passes.";

/// The `origin` parameter of `start_live_directions`.
pub const START_LIVE_DIRECTIONS_ORIGIN: &'static str = "The user's current location / starting address";

/// The `destination` parameter of `start_live_directions`.
pub const START_LIVE_DIRECTIONS_DESTINATION: &'static str = "Where the user needs to go";

/// The `minutes_until_deadline` parameter of `start_live_directions`.
pub const START_LIVE_DIRECTIONS_MINUTES_UNTIL_DEADLINE: &'static str = "How many minutes from now the user needs to arrive. e.g. if they say 'in 30 mins' this is 30.";

/// What the `create_agent_task` tool is for.
pub const CREATE_COUNTDOWN_DESCRIPTION: &'static str = "Create a countdown timer (personal or agent-related). Use this for any task with a time limit (e.g., 'eat in 30 mins', 'IDE refactoring for 10 mins'). This creates a COUNTDOWN ticket with a live timer that auto-deletes when it expires.";

/// The `title` parameter of `create_agent_task`.
pub const CREATE_COUNTDOWN_TITLE: &'static str = "A short description of the task or timer, e.g., 'Refactoring code' or 'Time to leave'";

/// The `duration_minutes` parameter of `create_agent_task`.
pub const CREATE_COUNTDOWN_DURATION_MINUTES: &'static str = "Number of minutes until the deadline.";

/// The tool catalogue, in the order it is offered.
pub open spec fn tool_catalog() -> Seq<(Seq<char>, Seq<char>, Seq<char>, JsonV)> {
    seq![
        tool_model("create_ticket"@, CREATE_TICKET_DESCRIPTION@, seq![("type"@, "string"@, CREATE_TICKET_TYPE@), ("title"@, "string"@, CREATE_TICKET_TITLE@), ("notes"@, "string"@, CREATE_TICKET_NOTES@), ("rrule"@, "string"@, CREATE_TICKET_RRULE@), ("duration_minutes"@, "integer"@, CREATE_TICKET_DURATION_MINUTES@)], Some(seq!["type"@, "title"@])),
        tool_model("delete_ticket"@, DELETE_TICKET_DESCRIPTION@, seq![("task_id"@, "string"@, DELETE_TICKET_TASK_ID@)], Some(seq!["task_id"@])),
        tool_model("delete_all_tickets"@, DELETE_ALL_TICKETS_DESCRIPTION@, Seq::<(Seq<char>, Seq<char>, Seq<char>)>::empty(), None),
        tool_model("edit_ticket"@, EDIT_TICKET_DESCRIPTION@, seq![("task_id"@, "string"@, EDIT_TICKET_TASK_ID@), ("type"@, "string"@, EDIT_TICKET_TYPE@), ("title"@, "string"@, EDIT_TICKET_TITLE@), ("notes"@, "string"@, EDIT_TICKET_NOTES@), ("rrule"@, "string"@, EDIT_TICKET_RRULE@), ("duration_minutes"@, "integer"@, EDIT_TICKET_DURATION_MINUTES@)], Some(seq!["task_id"@])),
        tool_model("add_commute"@, ADD_COMMUTE_DESCRIPTION@, seq![("label"@, "string"@, ADD_COMMUTE_LABEL@), ("origin"@, "string"@, ADD_COMMUTE_ORIGIN@), ("destination"@, "string"@, ADD_COMMUTE_DESTINATION@), ("deadline"@, "string"@, ADD_COMMUTE_DEADLINE@), ("days"@, "string"@, ADD_COMMUTE_DAYS@)], Some(seq!["label"@, "origin"@, "destination"@, "deadline"@])),
        tool_model("get_directions"@, GET_DIRECTIONS_DESCRIPTION@, seq![("origin"@, "string"@, GET_DIRECTIONS_ORIGIN@), ("destination"@, "string"@, GET_DIRECTIONS_DESTINATION@)], Some(seq!["origin"@, "destination"@])),
        tool_model("remove_commute"@, REMOVE_COMMUTE_DESCRIPTION@, seq![("task_id"@, "string"@, REMOVE_COMMUTE_TASK_ID@)], Some(seq!["task_id"@])),
        tool_model("start_live_directions"@, START_LIVE_DIRECTIONS_DESCRIPTION@, seq![("origin"@, "string"@, START_LIVE_DIRECTIONS_ORIGIN@), ("destination"@, "string"@, START_LIVE_DIRECTIONS_DESTINATION@), ("minutes_until_deadline"@, "integer"@, START_LIVE_DIRECTIONS_MINUTES_UNTIL_DEADLINE@)], Some(seq!["origin"@, "destination"@, "minutes_until_deadline"@])),
        tool_model("create_agent_task"@, CREATE_COUNTDOWN_DESCRIPTION@, seq![("title"@, "string"@, CREATE_COUNTDOWN_TITLE@), ("duration_minutes"@, "integer"@, CREATE_COUNTDOWN_DURATION_MINUTES@)], Some(seq!["title"@, "duration_minutes"@])),
    ]
}

/// One parameter's schema entry.
pub(crate) fn param(name: &str, ty: &str, description: &str) -> (r: (String, JsonValue))
    ensures
        (r.0@, r.1@) == prop_entry((name@, ty@, description@)),
{
    let mut es: Vec<(String, JsonValue)> = Vec::new();
    es.push(("description".to_owned(), JsonValue::text(description)));
    es.push(("type".to_owned(), JsonValue::text(ty)));
    proof {
        lemma_entries_view(es@);
        assert(entries_view(es@) =~= seq![("description"@, JsonV::Str(description@)), ("type"@, JsonV::Str(ty@))]);
    }
    (name.to_owned(), JsonValue::Object(es))
}

/// An object schema built from its parameter entries and required names.
pub(crate) fn object_schema(
    ps: Vec<(String, JsonValue)>,
    req: Option<Vec<JsonValue>>,
    psv: Ghost<Seq<(Seq<char>, Seq<char>, Seq<char>)>>,
    reqv: Ghost<Option<Seq<Seq<char>>>>,
) -> (r: JsonValue)
    requires
        entries_view(ps@) == psv@.map_values(|p: (Seq<char>, Seq<char>, Seq<char>)| prop_entry(p)),
        match req {
            Some(rv) => reqv@ is Some && items_view(rv@) == reqv@.unwrap().map_values(|n: Seq<char>| JsonV::Str(n)),
            None => reqv@ is None,
        },
    ensures
        r@ == schema_of(psv@, reqv@),
{
    let mut props: Vec<(String, JsonValue)> = Vec::new();
    proof {
        assert(entries_view(props@) =~= Seq::empty());
    }
    insert_all_entries(&mut props, &ps);
    let mut schema: Vec<(String, JsonValue)> = Vec::new();
    schema.push(("properties".to_owned(), JsonValue::Object(props)));
    match req {
        Some(rv) => {
            schema.push(("required".to_owned(), JsonValue::Array(rv)));
        },
        None => {},
    }
    schema.push(("type".to_owned(), JsonValue::text("object")));
    proof {
        lemma_entries_view(schema@);
        assert(entries_view(schema@) =~= match schema_of(psv@, reqv@) {
            JsonV::Object(es) => es,
            _ => Seq::empty(),
        });
    }
    JsonValue::Object(schema)
}

/// A function tool built from its parameter entries and required names.
fn make_tool(
    name: &str,
    description: &str,
    ps: Vec<(String, JsonValue)>,
    req: Option<Vec<JsonValue>>,
    psv: Ghost<Seq<(Seq<char>, Seq<char>, Seq<char>)>>,
    reqv: Ghost<Option<Seq<Seq<char>>>>,
) -> (r: Tool)
    requires
        entries_view(ps@) == psv@.map_values(|p: (Seq<char>, Seq<char>, Seq<char>)| prop_entry(p)),
        match req {
            Some(rv) => reqv@ is Some && items_view(rv@) == reqv@.unwrap().map_values(|n: Seq<char>| JsonV::Str(n)),
            None => reqv@ is None,
        },
    ensures
        tool_view(r) == tool_model(name@, description@, psv@, reqv@),
{
    Tool {
        tool_type: "function".to_owned(),
        function: ToolFunction {
            name: name.to_owned(),
            description: description.to_owned(),
            parameters: object_schema(ps, req, psv, reqv),
        },
    }
}

/// The tools the model may call to change the stack.
pub fn tool_schemas() -> (r: Vec<Tool>)
    ensures
        r@.len() == tool_catalog().len(),
        forall|i: int| 0 <= i < r@.len() ==> tool_view(#[trigger] r@[i]) == tool_catalog()[i],
{
    let mut out: Vec<Tool> = Vec::new();

    {
        let mut ps: Vec<(String, JsonValue)> = Vec::new();
        ps.push(param("type", "string", CREATE_TICKET_TYPE));
        ps.push(param("title", "string", CREATE_TICKET_TITLE));
        ps.push(param("notes", "string", CREATE_TICKET_NOTES));
        ps.push(param("rrule", "string", CREATE_TICKET_RRULE));
        ps.push(param("duration_minutes", "integer", CREATE_TICKET_DURATION_MINUTES));
        let ghost psv: Seq<(Seq<char>, Seq<char>, Seq<char>)> = seq![("type"@, "string"@, CREATE_TICKET_TYPE@), ("title"@, "string"@, CREATE_TICKET_TITLE@), ("notes"@, "string"@, CREATE_TICKET_NOTES@), ("rrule"@, "string"@, CREATE_TICKET_RRULE@), ("duration_minutes"@, "integer"@, CREATE_TICKET_DURATION_MINUTES@)];
        let mut rv: Vec<JsonValue> = Vec::new();
        rv.push(JsonValue::text("type"));
        rv.push(JsonValue::text("title"));
        let ghost reqv: Option<Seq<Seq<char>>> = Some(seq!["type"@, "title"@]);
        proof {
            lemma_items_view(rv@);
            assert(items_view(rv@) =~= reqv.unwrap().map_values(|n: Seq<char>| JsonV::Str(n)));
        }
        let req: Option<Vec<JsonValue>> = Some(rv);
        proof {
            lemma_entries_view(ps@);
            assert(entries_view(ps@) =~= psv.map_values(|p: (Seq<char>, Seq<char>, Seq<char>)| prop_entry(p)));
        }
        let t = make_tool("create_ticket", CREATE_TICKET_DESCRIPTION, ps, req, Ghost(psv), Ghost(reqv));
        out.push(t);
    }
    {
        let mut ps: Vec<(String, JsonValue)> = Vec::new();
        ps.push(param("task_id", "string", DELETE_TICKET_TASK_ID));
        let ghost psv: Seq<(Seq<char>, Seq<char>, Seq<char>)> = seq![("task_id"@, "string"@, DELETE_TICKET_TASK_ID@)];
        let mut rv: Vec<JsonValue> = Vec::new();
        rv.push(JsonValue::text("task_id"));
        let ghost reqv: Option<Seq<Seq<char>>> = Some(seq!["task_id"@]);
        proof {
            lemma_items_view(rv@);
            assert(items_view(rv@) =~= reqv.unwrap().map_values(|n: Seq<char>| JsonV::Str(n)));
        }
        let req: Option<Vec<JsonValue>> = Some(rv);
        proof {
            lemma_entries_view(ps@);
            assert(entries_view(ps@) =~= psv.map_values(|p: (Seq<char>, Seq<char>, Seq<char>)| prop_entry(p)));
        }
        let t = make_tool("delete_ticket", DELETE_TICKET_DESCRIPTION, ps, req, Ghost(psv), Ghost(reqv));
        out.push(t);
    }
    {
        let mut ps: Vec<(String, JsonValue)> = Vec::new();
        let ghost psv: Seq<(Seq<char>, Seq<char>, Seq<char>)> = Seq::<(Seq<char>, Seq<char>, Seq<char>)>::empty();
        let req: Option<Vec<JsonValue>> = None;
        let ghost reqv: Option<Seq<Seq<char>>> = None;
        proof {
            lemma_entries_view(ps@);
            assert(entries_view(ps@) =~= psv.map_values(|p: (Seq<char>, Seq<char>, Seq<char>)| prop_entry(p)));
        }
        let t = make_tool("delete_all_tickets", DELETE_ALL_TICKETS_DESCRIPTION, ps, req, Ghost(psv), Ghost(reqv));
        out.push(t);
    }
    {
        let mut ps: Vec<(String, JsonValue)> = Vec::new();
        ps.push(param("task_id", "string", EDIT_TICKET_TASK_ID));
        ps.push(param("type", "string", EDIT_TICKET_TYPE));
        ps.push(param("title", "string", EDIT_TICKET_TITLE));
        ps.push(param("notes", "string", EDIT_TICKET_NOTES));
        ps.push(param("rrule", "string", EDIT_TICKET_RRULE));
        ps.push(param("duration_minutes", "integer", EDIT_TICKET_DURATION_MINUTES));
        let ghost psv: Seq<(Seq<char>, Seq<char>, Seq<char>)> = seq![("task_id"@, "string"@, EDIT_TICKET_TASK_ID@), ("type"@, "string"@, EDIT_TICKET_TYPE@), ("title"@, "string"@, EDIT_TICKET_TITLE@), ("notes"@, "string"@, EDIT_TICKET_NOTES@), ("rrule"@, "string"@, EDIT_TICKET_RRULE@), ("duration_minutes"@, "integer"@, EDIT_TICKET_DURATION_MINUTES@)];
        let mut rv: Vec<JsonValue> = Vec::new();
        rv.push(JsonValue::text("task_id"));
        let ghost reqv: Option<Seq<Seq<char>>> = Some(seq!["task_id"@]);
        proof {
            lemma_items_view(rv@);
            assert(items_view(rv@) =~= reqv.unwrap().map_values(|n: Seq<char>| JsonV::Str(n)));
        }
        let req: Option<Vec<JsonValue>> = Some(rv);
        proof {
            lemma_entries_view(ps@);
            assert(entries_view(ps@) =~= psv.map_values(|p: (Seq<char>, Seq<char>, Seq<char>)| prop_entry(p)));
        }
        let t = make_tool("edit_ticket", EDIT_TICKET_DESCRIPTION, ps, req, Ghost(psv), Ghost(reqv));
        out.push(t);
    }
    {
        let mut ps: Vec<(String, JsonValue)> = Vec::new();
        ps.push(param("label", "string", ADD_COMMUTE_LABEL));
        ps.push(param("origin", "string", ADD_COMMUTE_ORIGIN));
        ps.push(param("destination", "string", ADD_COMMUTE_DESTINATION));
        ps.push(param("deadline", "string", ADD_COMMUTE_DEADLINE));
        ps.push(param("days", "string", ADD_COMMUTE_DAYS));
        let ghost psv: Seq<(Seq<char>, Seq<char>, Seq<char>)> = seq![("label"@, "string"@, ADD_COMMUTE_LABEL@), ("origin"@, "string"@, ADD_COMMUTE_ORIGIN@), ("destination"@, "string"@, ADD_COMMUTE_DESTINATION@), ("deadline"@, "string"@, ADD_COMMUTE_DEADLINE@), ("days"@, "string"@, ADD_COMMUTE_DAYS@)];
        let mut rv: Vec<JsonValue> = Vec::new();
        rv.push(JsonValue::text("label"));
        rv.push(JsonValue::text("origin"));
        rv.push(JsonValue::text("destination"));
        rv.push(JsonValue::text("deadline"));
        let ghost reqv: Option<Seq<Seq<char>>> = Some(seq!["label"@, "origin"@, "destination"@, "deadline"@]);
        proof {
            lemma_items_view(rv@);
            assert(items_view(rv@) =~= reqv.unwrap().map_values(|n: Seq<char>| JsonV::Str(n)));
        }
        let req: Option<Vec<JsonValue>> = Some(rv);
        proof {
            lemma_entries_view(ps@);
            assert(entries_view(ps@) =~= psv.map_values(|p: (Seq<char>, Seq<char>, Seq<char>)| prop_entry(p)));
        }
        let t = make_tool("add_commute", ADD_COMMUTE_DESCRIPTION, ps, req, Ghost(psv), Ghost(reqv));
        out.push(t);
    }
    {
        let mut ps: Vec<(String, JsonValue)> = Vec::new();
        ps.push(param("origin", "string", GET_DIRECTIONS_ORIGIN));
        ps.push(param("destination", "string", GET_DIRECTIONS_DESTINATION));
        let ghost psv: Seq<(Seq<char>, Seq<char>, Seq<char>)> = seq![("origin"@, "string"@, GET_DIRECTIONS_ORIGIN@), ("destination"@, "string"@, GET_DIRECTIONS_DESTINATION@)];
        let mut rv: Vec<JsonValue> = Vec::new();
        rv.push(JsonValue::text("origin"));
        rv.push(JsonValue::text("destination"));
        let ghost reqv: Option<Seq<Seq<char>>> = Some(seq!["origin"@, "destination"@]);
        proof {
            lemma_items_view(rv@);
            assert(items_view(rv@) =~= reqv.unwrap().map_values(|n: Seq<char>| JsonV::Str(n)));
        }
        let req: Option<Vec<JsonValue>> = Some(rv);
        proof {
            lemma_entries_view(ps@);
            assert(entries_view(ps@) =~= psv.map_values(|p: (Seq<char>, Seq<char>, Seq<char>)| prop_entry(p)));
        }
        let t = make_tool("get_directions", GET_DIRECTIONS_DESCRIPTION, ps, req, Ghost(psv), Ghost(reqv));
        out.push(t);
    }
    {
        let mut ps: Vec<(String, JsonValue)> = Vec::new();
        ps.push(param("task_id", "string", REMOVE_COMMUTE_TASK_ID));
        let ghost psv: Seq<(Seq<char>, Seq<char>, Seq<char>)> = seq![("task_id"@, "string"@, REMOVE_COMMUTE_TASK_ID@)];
        let mut rv: Vec<JsonValue> = Vec::new();
        rv.push(JsonValue::text("task_id"));
        let ghost reqv: Option<Seq<Seq<char>>> = Some(seq!["task_id"@]);
        proof {
            lemma_items_view(rv@);
            assert(items_view(rv@) =~= reqv.unwrap().map_values(|n: Seq<char>| JsonV::Str(n)));
        }
        let req: Option<Vec<JsonValue>> = Some(rv);
        proof {
            lemma_entries_view(ps@);
            assert(entries_view(ps@) =~= psv.map_values(|p: (Seq<char>, Seq<char>, Seq<char>)| prop_entry(p)));
        }
        let t = make_tool("remove_commute", REMOVE_COMMUTE_DESCRIPTION, ps, req, Ghost(psv), Ghost(reqv));
        out.push(t);
    }
    {
        let mut ps: Vec<(String, JsonValue)> = Vec::new();
        ps.push(param("origin", "string", START_LIVE_DIRECTIONS_ORIGIN));
        ps.push(param("destination", "string", START_LIVE_DIRECTIONS_DESTINATION));
        ps.push(param("minutes_until_deadline", "integer", START_LIVE_DIRECTIONS_MINUTES_UNTIL_DEADLINE));
        let ghost psv: Seq<(Seq<char>, Seq<char>, Seq<char>)> = seq![("origin"@, "string"@, START_LIVE_DIRECTIONS_ORIGIN@), ("destination"@, "string"@, START_LIVE_DIRECTIONS_DESTINATION@), ("minutes_until_deadline"@, "integer"@, START_LIVE_DIRECTIONS_MINUTES_UNTIL_DEADLINE@)];
        let mut rv: Vec<JsonValue> = Vec::new();
        rv.push(JsonValue::text("origin"));
        rv.push(JsonValue::text("destination"));
        rv.push(JsonValue::text("minutes_until_deadline"));
        let ghost reqv: Option<Seq<Seq<char>>> = Some(seq!["origin"@, "destination"@, "minutes_until_deadline"@]);
        proof {
            lemma_items_view(rv@);
            assert(items_view(rv@) =~= reqv.unwrap().map_values(|n: Seq<char>| JsonV::Str(n)));
        }
        let req: Option<Vec<JsonValue>> = Some(rv);
        proof {
            lemma_entries_view(ps@);
            assert(entries_view(ps@) =~= psv.map_values(|p: (Seq<char>, Seq<char>, Seq<char>)| prop_entry(p)));
        }
        let t = make_tool("start_live_directions", START_LIVE_DIRECTIONS_DESCRIPTION, ps, req, Ghost(psv), Ghost(reqv));
        out.push(t);
    }
    {
        let mut ps: Vec<(String, JsonValue)> = Vec::new();
        ps.push(param("title", "string", CREATE_COUNTDOWN_TITLE));
        ps.push(param("duration_minutes", "integer", CREATE_COUNTDOWN_DURATION_MINUTES));
        let ghost psv: Seq<(Seq<char>, Seq<char>, Seq<char>)> = seq![("title"@, "string"@, CREATE_COUNTDOWN_TITLE@), ("duration_minutes"@, "integer"@, CREATE_COUNTDOWN_DURATION_MINUTES@)];
        let mut rv: Vec<JsonValue> = Vec::new();
        rv.push(JsonValue::text("title"));
        rv.push(JsonValue::text("duration_minutes"));
        let ghost reqv: Option<Seq<Seq<char>>> = Some(seq!["title"@, "duration_minutes"@]);
        proof {
            lemma_items_view(rv@);
            assert(items_view(rv@) =~= reqv.unwrap().map_values(|n: Seq<char>| JsonV::Str(n)));
        }
        let req: Option<Vec<JsonValue>> = Some(rv);
        proof {
            lemma_entries_view(ps@);
            assert(entries_view(ps@) =~= psv.map_values(|p: (Seq<char>, Seq<char>, Seq<char>)| prop_entry(p)));
        }
        let t = make_tool("create_agent_task", CREATE_COUNTDOWN_DESCRIPTION, ps, req, Ghost(psv), Ghost(reqv));
        out.push(t);
    }
    proof {
        assert forall|i: int| 0 <= i < out@.len() implies tool_view(#[trigger] out@[i]) == tool_catalog()[i] by {
        }
    }
    out
}

} // verus!
