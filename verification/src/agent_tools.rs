//! The agent's built-in tools, its in-memory world, and how a model reply
//! becomes one transition.
use vstd::prelude::*;
use crate::agent::{AgentAction, WorkingMemoryDelta, WorkingMemory, Error, noise_view};
use crate::encode::{encode_tickets, rfc3339_text, ticket_json, stack_text, stack_json_text};
use crate::json::{JsonValue, JsonV, jv_get, jv_get_str, entries_view, items_view, lemma_items_view, lemma_entries_view, json_clone};
use crate::jsontext::{parse_json, parsed_json, compact_json, debug_json_list, json_list_debug};
use crate::provider::copy_calls;
use crate::provider::{Message, MessageV, Role, ToolCall};
use crate::ticket::{Ticket, TicketV, opt_text, clone_opt_text};
use crate::text::{
    concat2, concat5, owned, str_eq, to_lowercase, unicode_lowercase, contains, contains_spec,
};
use crate::tools::{param, object_schema, prop_entry, schema_of};

verus! {

/// Turns of the agent loop allowed before it gives up.
pub const AGENT_MAX_ITERATIONS: u32 = 10;

/// The tool that ends the task with a final answer.
pub struct IdentityTool;

/// The tool that searches the user's stack.
pub struct SearchStack;

/// The tool that records an intermediate thought.
pub struct ScratchThought;

/// `(name, type, description)` of each parameter, and the required names.
pub open spec fn identity_schema() -> JsonV {
    schema_of(
        seq![("answer"@, "string"@, "The final natural language response to the user."@)],
        Some(seq!["answer"@]),
    )
}

/// The schema of `search_stack`'s parameters.
pub open spec fn search_schema() -> JsonV {
    schema_of(seq![("query"@, "string"@, "The search query."@)], Some(seq!["query"@]))
}

/// The schema of `scratch_thought`'s parameters.
pub open spec fn scratch_schema() -> JsonV {
    schema_of(
        seq![
            ("thought"@, "string"@, "The thought or reasoning step."@),
            ("metadata"@, "object"@, "Optional structured data."@),
        ],
        Some(seq!["thought"@]),
    )
}

/// An object schema with the given parameters, all listed ones required.
fn schema_with(
    ps: Vec<(String, JsonValue)>,
    req: Vec<JsonValue>,
    psv: Ghost<Seq<(Seq<char>, Seq<char>, Seq<char>)>>,
    reqv: Ghost<Seq<Seq<char>>>,
) -> (r: JsonValue)
    requires
        entries_view(ps@) == psv@.map_values(|p: (Seq<char>, Seq<char>, Seq<char>)| prop_entry(p)),
        items_view(req@) == reqv@.map_values(|n: Seq<char>| JsonV::Str(n)),
    ensures
        r@ == schema_of(psv@, Some(reqv@)),
{
    object_schema(ps, Some(req), psv, Ghost(Some(reqv@)))
}

impl IdentityTool {
    /// `"identity"`.
    pub fn name(&self) -> (r: &'static str)
        ensures
            r@ == "identity"@,
    {
        "identity"
    }

    /// What the tool is for.
    pub fn description(&self) -> (r: &'static str)
        ensures
            r@ == "Signals that the task is complete and returns the final answer."@,
    {
        "Signals that the task is complete and returns the final answer."
    }

    /// Its parameters: a required `answer` text.
    pub fn parameters(&self) -> (r: JsonValue)
        ensures
            r@ == identity_schema(),
    {
        let mut ps: Vec<(String, JsonValue)> = Vec::new();
        ps.push(param("answer", "string", "The final natural language response to the user."));
        let mut req: Vec<JsonValue> = Vec::new();
        req.push(JsonValue::text("answer"));
        let ghost psv = seq![("answer"@, "string"@, "The final natural language response to the user."@)];
        let ghost reqv = seq!["answer"@];
        proof {
            lemma_entries_view(ps@);
            lemma_items_view(req@);
            assert(entries_view(ps@) =~= psv.map_values(|p: (Seq<char>, Seq<char>, Seq<char>)| prop_entry(p)));
            assert(items_view(req@) =~= reqv.map_values(|n: Seq<char>| JsonV::Str(n)));
        }
        schema_with(ps, req, Ghost(psv), Ghost(reqv))
    }

    /// Ends the task with the `answer` given, or `"Done"`.
    pub fn execute(&self, args: &JsonValue) -> (r: AgentAction)
        ensures
            r matches AgentAction::Stop(a) && a@ == match jv_get_str(args@, "answer"@) {
                Some(t) => t,
                None => "Done"@,
            },
    {
        let answer = match args.get_string("answer") {
            Some(a) => a,
            None => owned("Done"),
        };
        AgentAction::Stop(answer)
    }
}

impl ScratchThought {
    /// `"scratch_thought"`.
    pub fn name(&self) -> (r: &'static str)
        ensures
            r@ == "scratch_thought"@,
    {
        "scratch_thought"
    }

    /// What the tool is for.
    pub fn description(&self) -> (r: &'static str)
        ensures
            r@ == "Saves a technical thought or intermediate result to the agent's working memory."@,
    {
        "Saves a technical thought or intermediate result to the agent's working memory."
    }

    /// Its parameters: a required `thought` text and optional `metadata`.
    pub fn parameters(&self) -> (r: JsonValue)
        ensures
            r@ == scratch_schema(),
    {
        let mut ps: Vec<(String, JsonValue)> = Vec::new();
        ps.push(param("thought", "string", "The thought or reasoning step."));
        ps.push(param("metadata", "object", "Optional structured data."));
        let mut req: Vec<JsonValue> = Vec::new();
        req.push(JsonValue::text("thought"));
        let ghost psv = seq![
            ("thought"@, "string"@, "The thought or reasoning step."@),
            ("metadata"@, "object"@, "Optional structured data."@),
        ];
        let ghost reqv = seq!["thought"@];
        proof {
            lemma_entries_view(ps@);
            lemma_items_view(req@);
            assert(entries_view(ps@) =~= psv.map_values(|p: (Seq<char>, Seq<char>, Seq<char>)| prop_entry(p)));
            assert(items_view(req@) =~= reqv.map_values(|n: Seq<char>| JsonV::Str(n)));
        }
        schema_with(ps, req, Ghost(psv), Ghost(reqv))
    }

    /// Records the `thought` (or nothing) under `thought:<thought>`, with the
    /// `metadata` given (or null).
    pub fn execute(&self, args: &JsonValue) -> (r: AgentAction)
        ensures
            r matches AgentAction::UpdateWorkingMemory(WorkingMemoryDelta::AddTechnicalNoise(k, v))
                && k@ == "thought:"@ + match jv_get_str(args@, "thought"@) {
                Some(t) => t,
                None => Seq::empty(),
            } && v@ == match jv_get(args@, "metadata"@) {
                Some(m) => m,
                None => JsonV::Null,
            },
    {
        let thought = match args.get_string("thought") {
            Some(t) => t,
            None => String::new(),
        };
        let metadata = match args.get("metadata") {
            Some(m) => json_clone(m),
            None => JsonValue::Null,
        };
        AgentAction::UpdateWorkingMemory(
            WorkingMemoryDelta::AddTechnicalNoise(concat2("thought:", thought.as_str()), metadata),
        )
    }
}

/// The tickets `results` as the JSON the search records.
pub open spec fn results_json(results: Seq<Ticket>) -> JsonV {
    JsonV::Array(
        results.map_values(|t: Ticket| ticket_json(t@, rfc3339_text(t.created_at), rfc3339_text(t.updated_at))),
    )
}

impl SearchStack {
    /// `"search_stack"`.
    pub fn name(&self) -> (r: &'static str)
        ensures
            r@ == "search_stack"@,
    {
        "search_stack"
    }

    /// What the tool is for.
    pub fn description(&self) -> (r: &'static str)
        ensures
            r@ == "Searches the user's stack (HStackWorld) for relevant tickets or habits."@,
    {
        "Searches the user's stack (HStackWorld) for relevant tickets or habits."
    }

    /// Its parameters: a required `query` text.
    pub fn parameters(&self) -> (r: JsonValue)
        ensures
            r@ == search_schema(),
    {
        let mut ps: Vec<(String, JsonValue)> = Vec::new();
        ps.push(param("query", "string", "The search query."));
        let mut req: Vec<JsonValue> = Vec::new();
        req.push(JsonValue::text("query"));
        let ghost psv = seq![("query"@, "string"@, "The search query."@)];
        let ghost reqv = seq!["query"@];
        proof {
            lemma_entries_view(ps@);
            lemma_items_view(req@);
            assert(entries_view(ps@) =~= psv.map_values(|p: (Seq<char>, Seq<char>, Seq<char>)| prop_entry(p)));
            assert(items_view(req@) =~= reqv.map_values(|n: Seq<char>| JsonV::Str(n)));
        }
        schema_with(ps, req, Ghost(psv), Ghost(reqv))
    }

    /// The search text the arguments ask for (`query`, or nothing).
    pub fn query(&self, args: &JsonValue) -> (r: String)
        ensures
            r@ == match jv_get_str(args@, "query"@) {
                Some(q) => q,
                None => Seq::empty(),
            },
    {
        match args.get_string("query") {
            Some(q) => q,
            None => String::new(),
        }
    }

    /// Records the world's answer to `query` under `search_stack:<query>`;
    /// a failed search is a world error.
    pub fn execute_with(&self, query: &str, results: Result<Vec<Ticket>, String>) -> (r: Result<
        AgentAction,
        Error,
    >)
        ensures
            match results {
                Ok(ts) => r matches Ok(
                    AgentAction::UpdateWorkingMemory(WorkingMemoryDelta::AddTechnicalNoise(k, v)),
                ) && k@ == "search_stack:"@ + query@ && v@ == results_json(ts@),
                Err(e) => r matches Err(Error::World(m)) && m == e,
            },
    {
        match results {
            Ok(ts) => {
                let found = encode_tickets(&ts);
                Ok(
                    AgentAction::UpdateWorkingMemory(
                        WorkingMemoryDelta::AddTechnicalNoise(concat2("search_stack:", query), found),
                    ),
                )
            },
            Err(e) => Err(Error::World(e)),
        }
    }
}

/// A world held in memory, for tests and simple use.
#[derive(Debug)]
pub struct InMemoryWorld {
    pub tickets: Vec<Ticket>,
}

/// A ticket matches a (lower-cased) query when its title or its notes,
/// lower-cased, contain it.
pub open spec fn matches_query(t: Ticket, q: Seq<char>) -> bool {
    contains_spec(unicode_lowercase(t.title@), q) || match t.notes {
        Some(n) => contains_spec(unicode_lowercase(n@), q),
        None => false,
    }
}

impl InMemoryWorld {
    /// A copy of every ticket, in order.
    pub fn get_tickets(&self) -> (r: Vec<Ticket>)
        ensures
            r@.len() == self.tickets@.len(),
            forall|i: int| 0 <= i < r@.len() ==> #[trigger] r@[i]@ == self.tickets@[i]@ && r@[i].created_at
                == self.tickets@[i].created_at && r@[i].updated_at == self.tickets@[i].updated_at,
    {
        let mut out: Vec<Ticket> = Vec::new();
        let mut i: usize = 0;
        while i < self.tickets.len()
            invariant
                i <= self.tickets@.len(),
                out@.len() == i,
                forall|k: int| 0 <= k < i ==> #[trigger] out@[k]@ == self.tickets@[k]@ && out@[k].created_at
                    == self.tickets@[k].created_at && out@[k].updated_at == self.tickets@[k].updated_at,
            decreases self.tickets@.len() - i,
        {
            out.push(self.tickets[i].copy());
            i = i + 1;
        }
        out
    }

    /// Copies of the tickets whose title or notes contain `query`, ignoring
    /// case, in order.
    pub fn search_tickets(&self, query: &str) -> (r: Vec<Ticket>)
        ensures
            ({
                let kept = self.tickets@.filter(|t: Ticket| matches_query(t, unicode_lowercase(query@)));
                &&& r@.len() == kept.len()
                &&& forall|i: int| 0 <= i < r@.len() ==> #[trigger] r@[i]@ == kept[i]@ && r@[i].created_at
                    == kept[i].created_at && r@[i].updated_at == kept[i].updated_at
            }),
    {
        let q = to_lowercase(query);
        let ghost pred = |t: Ticket| matches_query(t, unicode_lowercase(query@));
        let ghost ts = self.tickets@;
        let mut out: Vec<Ticket> = Vec::new();
        let mut i: usize = 0;
        proof {
            reveal(Seq::filter);
            assert(ts.take(0) =~= Seq::<Ticket>::empty());
        }
        while i < self.tickets.len()
            invariant
                ts == self.tickets@,
                i <= ts.len(),
                q@ == unicode_lowercase(query@),
                pred == (|t: Ticket| matches_query(t, unicode_lowercase(query@))),
                out@.len() == ts.take(i as int).filter(pred).len(),
                forall|k: int| 0 <= k < out@.len() ==> #[trigger] out@[k]@ == ts.take(i as int).filter(pred)[k]@
                    && out@[k].created_at == ts.take(i as int).filter(pred)[k].created_at && out@[k].updated_at
                    == ts.take(i as int).filter(pred)[k].updated_at,
            decreases ts.len() - i,
        {
            let t = &self.tickets[i];
            let title = to_lowercase(t.title.as_str());
            let hit = contains(title.as_str(), q.as_str()) || match &t.notes {
                Some(n) => {
                    let ln = to_lowercase(n.as_str());
                    contains(ln.as_str(), q.as_str())
                },
                None => false,
            };
            proof {
                reveal(Seq::filter);
                assert(ts.take(i + 1).drop_last() =~= ts.take(i as int));
                assert(ts.take(i + 1).last() == ts[i as int]);
            }
            if hit {
                out.push(t.copy());
            }
            i = i + 1;
        }
        proof {
            assert(ts.take(i as int) =~= ts);
        }
        out
    }
}

/// What running one requested tool gave: a transition, or the tool was not
/// found.
pub enum ToolOutcome {
    Action(AgentAction),
    UnknownTool(String),
}

/// The arguments of a tool call read as JSON, or null.
pub fn tool_call_args(call: &ToolCall) -> (r: JsonValue)
    ensures
        r@ == match parsed_json(call.function.arguments@) {
            Some(v) => v,
            None => JsonV::Null,
        },
{
    match parse_json(call.function.arguments.as_str()) {
        Some(v) => v,
        None => JsonValue::Null,
    }
}

/// The position of the first tool named `name`.
pub fn find_tool(names: &Vec<String>, name: &str) -> (r: Option<usize>)
    ensures
        match r {
            Some(i) => i < names@.len() && names@[i as int]@ == name@ && forall|j: int|
                0 <= j < i ==> #[trigger] names@[j]@ != name@,
            None => forall|j: int| 0 <= j < names@.len() ==> #[trigger] names@[j]@ != name@,
        },
{
    let mut i: usize = 0;
    while i < names.len()
        invariant
            i <= names@.len(),
            forall|j: int| 0 <= j < i ==> #[trigger] names@[j]@ != name@,
        decreases names@.len() - i,
    {
        if str_eq(names[i].as_str(), name) {
            return Some(i);
        }
        i = i + 1;
    }
    None
}

/// The note recorded for a tool the agent does not have.
pub open spec fn unknown_tool_note() -> JsonV {
    JsonV::Object(seq![("error"@, JsonV::Str("Unknown tool"@))])
}

/// The transition for one tool outcome.
pub open spec fn outcome_action_ok(o: ToolOutcome, a: AgentAction) -> bool {
    match o {
        ToolOutcome::Action(x) => a == x,
        ToolOutcome::UnknownTool(n) => a matches AgentAction::UpdateWorkingMemory(
            WorkingMemoryDelta::AddTechnicalNoise(k, v),
        ) && k@ == n@ && v@ == unknown_tool_note(),
    }
}

/// The transitions a reply asks for: the reply itself joins the history when
/// it has a text or tool calls, then one transition per tool outcome.
pub open spec fn reply_actions_ok(response: Message, outcomes: Seq<ToolOutcome>, acts: Seq<AgentAction>) -> bool {
    let head = if response.content is Some || response.tool_calls is Some {
        1int
    } else {
        0int
    };
    &&& acts.len() == head + outcomes.len()
    &&& head == 1 ==> acts[0] == AgentAction::UpdateWorkingMemory(WorkingMemoryDelta::AppendMessage(response))
    &&& forall|i: int| 0 <= i < outcomes.len() ==> outcome_action_ok(#[trigger] outcomes[i], acts[head + i])
}

/// The transition for a reply and the outcomes of the tools it called, in
/// order: nothing at all stalls the agent, one transition stands alone,
/// several are applied in order.
pub fn response_to_action(response: Message, outcomes: Vec<ToolOutcome>) -> (r: AgentAction)
    ensures
        exists|acts: Seq<AgentAction>|
            reply_actions_ok(response, outcomes@, acts) && if acts.len() == 0 {
                r matches AgentAction::Stop(s) && s@ == "Agent stalled"@
            } else if acts.len() == 1 {
                r == acts[0]
            } else {
                r matches AgentAction::Compound(v) && v@ == acts
            },
{
    let ghost outs = outcomes@;
    let mut actions: Vec<AgentAction> = Vec::new();
    let head: usize = if response.content.is_some() || response.tool_calls.is_some() {
        1
    } else {
        0
    };
    if head == 1 {
        actions.push(AgentAction::UpdateWorkingMemory(WorkingMemoryDelta::AppendMessage(response)));
    }
    let n = outcomes.len();
    let mut rest = outcomes;
    let mut i: usize = 0;
    assert(outs.skip(0) =~= outs);
    while rest.len() > 0
        invariant
            n == outs.len(),
            rest@ == outs.skip(i as int),
            i <= outs.len(),
            actions@.len() == head + i,
            head == 1 ==> actions@[0] == AgentAction::UpdateWorkingMemory(WorkingMemoryDelta::AppendMessage(response)),
            forall|k: int| 0 <= k < i ==> outcome_action_ok(#[trigger] outs[k], actions@[head + k]),
            head == (if response.content is Some || response.tool_calls is Some { 1int } else { 0int }),
        decreases rest.len(),
    {
        let o = rest.remove(0);
        proof {
            assert(o == outs[i as int]);
            assert(rest@ =~= outs.skip(i + 1));
        }
        let a = match o {
            ToolOutcome::Action(x) => x,
            ToolOutcome::UnknownTool(name) => {
                let mut es: Vec<(String, JsonValue)> = Vec::new();
                es.push((owned("error"), JsonValue::text("Unknown tool")));
                proof {
                    lemma_entries_view(es@);
                    assert(entries_view(es@) =~= seq![("error"@, JsonV::Str("Unknown tool"@))]);
                }
                AgentAction::UpdateWorkingMemory(
                    WorkingMemoryDelta::AddTechnicalNoise(name, JsonValue::Object(es)),
                )
            },
        };
        actions.push(a);
        i = i + 1;
    }
    let ghost acts = actions@;
    assert(reply_actions_ok(response, outs, acts));
    if actions.len() == 0 {
        AgentAction::Stop(owned("Agent stalled"))
    } else if actions.len() == 1 {
        actions.remove(0)
    } else {
        AgentAction::Compound(actions)
    }
}

/// Builds the prompt from the world and the working memory.
pub struct SimpleContextManager;

/// The system prompt: the base prompt, the stack (as JSON text) and the
/// recent technical notes.
pub open spec fn context_system_text(base_prompt: Seq<char>, tickets: Seq<Ticket>, noise: Seq<JsonV>) -> Seq<char> {
    base_prompt + "\n\nCURRENT STACK CONTEXT:\n"@ + stack_text(tickets) + "\n\nRECENT THOUGHTS:\n"@ + json_list_debug(
        noise,
    )
}

impl SimpleContextManager {
    /// The messages for the model: a system message with the base prompt,
    /// the stack written as indented JSON and the technical notes, then the
    /// conversation so far.
    pub fn construct_context(&self, tickets: &Vec<Ticket>, memory: &WorkingMemory, base_prompt: &str) -> (r: Vec<
        Message,
    >)
        ensures
            r@.len() == memory.messages@.len() + 1,
            r@[0]@ == (MessageV {
                role: Role::System,
                content: Some(context_system_text(base_prompt@, tickets@, noise_view(memory.technical_noise@))),
                tool_calls: None,
                tool_call_id: None,
                name: None,
            }),
            forall|i: int| 0 <= i < memory.messages@.len() ==> #[trigger] r@[i + 1]@ == memory.messages@[i]@,
    {
        let noise = debug_json_list(&memory.technical_noise);
        let tickets_json = stack_json_text(tickets);
        let content = concat5(
            base_prompt,
            "\n\nCURRENT STACK CONTEXT:\n",
            tickets_json.as_str(),
            "\n\nRECENT THOUGHTS:\n",
            noise.as_str(),
        );
        let mut messages: Vec<Message> = Vec::new();
        messages.push(Message::text(Role::System, content));
        let mut i: usize = 0;
        while i < memory.messages.len()
            invariant
                i <= memory.messages@.len(),
                messages@.len() == i + 1,
                messages@[0]@ == (MessageV {
                    role: Role::System,
                    content: Some(context_system_text(base_prompt@, tickets@, noise_view(memory.technical_noise@))),
                    tool_calls: None,
                    tool_call_id: None,
                    name: None,
                }),
                forall|k: int| 0 <= k < i ==> #[trigger] messages@[k + 1]@ == memory.messages@[k]@,
            decreases memory.messages@.len() - i,
        {
            messages.push(memory.messages[i].copy());
            i = i + 1;
        }
        messages
    }
}

/// A read-only agent never collects a stack change.
pub proof fn lemma_read_only_collects_nothing(st: crate::agent::RunV, ls: Seq<AgentAction>)
    ensures
        crate::agent::run_from(crate::agent::ReadOnlyControl, st, ls).deltas == st.deltas,
    decreases ls.len(),
{
    if ls.len() > 0 {
        lemma_read_only_collects_nothing(st, ls.drop_last());
    }
}

/// A permissive agent is never refused.
pub proof fn lemma_allow_all_never_refuses(st: crate::agent::RunV, ls: Seq<AgentAction>)
    requires
        !st.blocked,
    ensures
        !crate::agent::run_from(crate::agent::AllowAllControl, st, ls).blocked,
    decreases ls.len(),
{
    if ls.len() > 0 {
        lemma_allow_all_never_refuses(st, ls.drop_last());
    }
}

} // verus!
