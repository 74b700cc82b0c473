//! The planning pass: a structured plan proposed by the model, and the rules a
//! plan must meet before its tool actions are executed.
use vstd::prelude::*;
use crate::json::{
    JsonValue, JsonV, JsonMap, entries_view, entries_get, obj_get, jv_get, jv_get_str, jv_get_i64,
    lemma_entries_view,
};
use crate::text::{
    blank, any_blank, has_blank, is_blank, trim, trim_spec, ascii_lower, to_ascii_lowercase,
    eq_ignore_ascii_case, str_eq, concat2, concat3, concat4, concat5, debug_str, debug_text, int_text, i64_text, owned,
};
use crate::provider::Tool;

verus! {

/// A future commitment the planner noticed in the conversation.
#[derive(Debug)]
pub struct PlannerCommitment {
    pub ticket_type: Option<String>,
    pub title: Option<String>,
    pub rrule: Option<String>,
    pub duration_minutes: Option<i64>,
}

/// A ticket whose timing depends on what the plan changes.
#[derive(Debug)]
pub struct PlannerDependencyImpact {
    pub ticket_id: String,
    pub title: Option<String>,
    pub reason: String,
    pub action_required: bool,
}

/// A tool call the plan wants to make.
#[derive(Debug)]
pub struct PlannerAction {
    pub tool: String,
    pub arguments: JsonValue,
}

/// A plan as the planning model returns it.
#[derive(Debug)]
pub struct PlannerPlan {
    pub user_goal: String,
    pub grounded_facts: Vec<String>,
    pub time_constraints: Vec<String>,
    pub existing_tickets_relevant: Vec<String>,
    pub dependent_tickets_impacted: Vec<PlannerDependencyImpact>,
    pub new_commitments_detected: Vec<PlannerCommitment>,
    pub proactive_opportunities: Vec<String>,
    pub assumptions_to_apply: Vec<String>,
    pub tool_actions: Vec<PlannerAction>,
    pub user_reply_strategy: String,
}

/// The most actions one plan may carry.
pub const MAX_PLAN_ACTIONS: usize = 8;

/// The first `Some` among `f(i)`, `f(i + 1)`, ..., `f(n - 1)`.
pub open spec fn first_some(f: spec_fn(int) -> Option<Seq<char>>, i: int, n: int) -> Option<Seq<char>>
    decreases n - i,
{
    if i >= n {
        None
    } else {
        match f(i) {
            Some(e) => Some(e),
            None => first_some(f, i + 1, n),
        }
    }
}

pub proof fn lemma_first_some_skip(f: spec_fn(int) -> Option<Seq<char>>, i: int, n: int)
    requires
        0 <= i <= n,
        forall|j: int| 0 <= j < i ==> (#[trigger] f(j)) is None,
    ensures
        first_some(f, 0, n) == first_some(f, i, n),
    decreases i,
{
    if i > 0 {
        lemma_first_some_skip(f, i - 1, n);
        assert(f(i - 1) is None);
    }
}

/// `'s'`.
pub open spec fn quoted(s: Seq<char>) -> Seq<char> {
    "'"@ + s + "'"@
}

/// The problem with the `i`-th dependent ticket, if any.
pub open spec fn impact_error(imps: Seq<PlannerDependencyImpact>, i: int) -> Option<Seq<char>> {
    let imp = imps[i];
    let id = imp.ticket_id@;
    if blank(id) {
        Some("planner returned a dependent ticket with an empty ticket_id"@)
    } else if blank(imp.reason@) {
        Some("planner returned an empty dependency reason for ticket "@ + quoted(id))
    } else if imp.title matches Some(t) && blank(t@) {
        Some("planner returned an empty dependency title for ticket "@ + quoted(id))
    } else if exists|j: int| 0 <= j < i && #[trigger] imps[j].ticket_id@ == id {
        Some("planner listed dependent ticket "@ + quoted(id) + " more than once"@)
    } else {
        None
    }
}

pub open spec fn impact_check(imps: Seq<PlannerDependencyImpact>) -> spec_fn(int) -> Option<Seq<char>> {
    |i: int| impact_error(imps, i)
}

/// A commitment's title, trimmed.
pub open spec fn trimmed_title(c: PlannerCommitment) -> Option<Seq<char>> {
    match c.title {
        Some(t) => Some(trim_spec(t@)),
        None => None,
    }
}

/// The commitment carries scheduling details.
pub open spec fn has_details(c: PlannerCommitment) -> bool {
    c.ticket_type is Some || c.rrule is Some || c.duration_minutes is Some
}

/// The commitment's trimmed title equals `t` up to ASCII case.
pub open spec fn same_title(c: PlannerCommitment, t: Seq<char>) -> bool {
    match trimmed_title(c) {
        Some(u) => ascii_lower(u) == ascii_lower(t),
        None => false,
    }
}

/// The problem with the `i`-th commitment, if any.
pub open spec fn commitment_error(cs: Seq<PlannerCommitment>, i: int) -> Option<Seq<char>> {
    let c = cs[i];
    match trimmed_title(c) {
        Some(t) => if t.len() == 0 {
            Some("planner returned a commitment with an empty title"@)
        } else if exists|j: int| 0 <= j < i && #[trigger] same_title(cs[j], t) {
            Some("planner listed commitment "@ + quoted(t) + " more than once"@)
        } else {
            None
        },
        None => if has_details(c) {
            Some("planner returned a commitment with scheduling details but no title"@)
        } else {
            None
        },
    }
}

pub open spec fn commitment_check(cs: Seq<PlannerCommitment>) -> spec_fn(int) -> Option<Seq<char>> {
    |i: int| commitment_error(cs, i)
}

/// Some entry of `es` has key `k`.
pub open spec fn entry_has(es: Seq<(Seq<char>, JsonV)>, k: Seq<char>) -> bool {
    exists|i: int| 0 <= i < es.len() && #[trigger] es[i].0 == k
}

/// The position of the tool named `name` (the last one, if several share it).
pub open spec fn tool_named(tools: Seq<Tool>, name: Seq<char>, t: int) -> bool {
    0 <= t < tools.len() && tools[t].function.name@ == name && forall|k: int|
        t < k < tools.len() ==> #[trigger] tools[k].function.name@ != name
}

/// An argument key the schema's properties do not declare.
pub open spec fn unsupported_check(args: Seq<(Seq<char>, JsonV)>, props: Seq<(Seq<char>, JsonV)>, tool: Seq<char>) -> spec_fn(int) -> Option<Seq<char>> {
    |k: int| if entry_has(props, args[k].0) {
        None
    } else {
        Some("planner used unsupported argument "@ + quoted(args[k].0) + " for tool "@ + quoted(tool))
    }
}

/// A required key the arguments omit.
pub open spec fn required_check(req: Seq<JsonV>, args: Seq<(Seq<char>, JsonV)>, tool: Seq<char>) -> spec_fn(int) -> Option<Seq<char>> {
    |m: int| match req[m] {
        JsonV::Str(s) => if entry_has(args, s) {
            None
        } else {
            Some("planner omitted required argument "@ + quoted(s) + " for tool "@ + quoted(tool))
        },
        _ => None,
    }
}

/// The declared properties of a schema (none unless an object).
pub open spec fn schema_properties(schema: Seq<(Seq<char>, JsonV)>) -> Seq<(Seq<char>, JsonV)> {
    match obj_get(schema, "properties"@) {
        Some(JsonV::Object(p)) => p,
        _ => Seq::empty(),
    }
}

/// A timed event created without a schedule.
pub open spec fn timed_event_without_schedule(args: JsonV) -> bool {
    let ty = match jv_get_str(args, "type"@) {
        Some(t) => t,
        None => Seq::empty(),
    };
    ty == "EVENT"@ && jv_get_i64(args, "duration_minutes"@) is Some && jv_get_str(args, "rrule"@) is None
}

/// The problem with a planned action, given the offered tools, if any.
pub open spec fn action_error(tools: Seq<Tool>, a: PlannerAction) -> Option<Seq<char>> {
    let name = a.tool@;
    if !(exists|t: int| tool_named(tools, name, t)) {
        Some("planner used unknown tool "@ + quoted(name))
    } else {
        let t = choose|t: int| tool_named(tools, name, t);
        match a.arguments@ {
            JsonV::Object(args) => match tools[t].function.parameters@ {
                JsonV::Object(schema) => match first_some(
                    unsupported_check(args, schema_properties(schema), name),
                    0,
                    args.len() as int,
                ) {
                    Some(e) => Some(e),
                    None => match match obj_get(schema, "required"@) {
                        Some(JsonV::Array(req)) => first_some(
                            required_check(req, args, name),
                            0,
                            req.len() as int,
                        ),
                        _ => None,
                    } {
                        Some(e) => Some(e),
                        None => if name == "create_ticket"@ && timed_event_without_schedule(a.arguments@) {
                            Some("planner created a timed EVENT without an rrule/DTSTART schedule"@)
                        } else {
                            None
                        },
                    },
                },
                _ => Some("tool "@ + quoted(name) + " has invalid schema"@),
            },
            _ => Some("planner arguments for "@ + quoted(name) + " must be a JSON object"@),
        }
    }
}

pub open spec fn action_check(tools: Seq<Tool>, actions: Seq<PlannerAction>) -> spec_fn(int) -> Option<Seq<char>> {
    |i: int| action_error(tools, actions[i])
}

/// A `create_ticket` action whose title matches `title` up to ASCII case.
pub open spec fn creates_titled(a: PlannerAction, title: Seq<char>) -> bool {
    a.tool@ == "create_ticket"@ && match jv_get_str(a.arguments@, "title"@) {
        Some(c) => ascii_lower(c) == ascii_lower(title),
        None => false,
    }
}

/// `format!("{:?}", o)` for an optional text.
pub open spec fn debug_opt_text(o: Option<Seq<char>>) -> Seq<char> {
    match o {
        Some(s) => "Some("@ + debug_text(s) + ")"@,
        None => "None"@,
    }
}

/// `format!("{:?}", o)` for an optional integer.
pub open spec fn debug_opt_int(o: Option<i64>) -> Seq<char> {
    match o {
        Some(n) => "Some("@ + int_text(n as int) + ")"@,
        None => "None"@,
    }
}

/// The mismatch between a commitment with details and the action creating it.
pub open spec fn created_mismatch(c: PlannerCommitment, title: Seq<char>, args: JsonV) -> Option<Seq<char>> {
    let head = "planner commitment "@ + quoted(title);
    match c.ticket_type {
        Some(et) if jv_get_str(args, "type"@) != Some(et@) => Some(
            head + " expected type "@ + quoted(et@) + " but create_ticket used "@ + quoted(
                debug_opt_text(jv_get_str(args, "type"@)),
            ),
        ),
        _ => match c.rrule {
            Some(er) if jv_get_str(args, "rrule"@) != Some(er@) => Some(
                head + " expected schedule "@ + quoted(er@) + " but create_ticket used "@ + quoted(
                    debug_opt_text(jv_get_str(args, "rrule"@)),
                ),
            ),
            _ => match c.duration_minutes {
                Some(d) if jv_get_i64(args, "duration_minutes"@) != Some(d) => Some(
                    head + " expected duration "@ + quoted(int_text(d as int)) + " but create_ticket used "@
                        + quoted(debug_opt_int(jv_get_i64(args, "duration_minutes"@))),
                ),
                _ => None,
            },
        },
    }
}

/// The problem with how the actions carry out the `i`-th commitment, if any.
pub open spec fn commitment_action_error(actions: Seq<PlannerAction>, c: PlannerCommitment) -> Option<Seq<char>> {
    match c.title {
        None => None,
        Some(t) => if !has_details(c) {
            None
        } else if !(exists|k: int| 0 <= k < actions.len() && creates_titled(#[trigger] actions[k], t@)) {
            Some("planner detected commitment "@ + quoted(t@) + " but did not create a matching ticket action"@)
        } else {
            let k = choose|k: int|
                0 <= k < actions.len() && creates_titled(actions[k], t@) && forall|m: int|
                    0 <= m < k ==> !creates_titled(#[trigger] actions[m], t@);
            created_mismatch(c, t@, actions[k].arguments@)
        },
    }
}

pub open spec fn commitment_action_check(actions: Seq<PlannerAction>, cs: Seq<PlannerCommitment>) -> spec_fn(int) -> Option<Seq<char>> {
    |i: int| commitment_action_error(actions, cs[i])
}

/// Some action edits the ticket `id`.
pub open spec fn edits_ticket(actions: Seq<PlannerAction>, id: Seq<char>) -> bool {
    exists|k: int|
        0 <= k < actions.len() && (#[trigger] actions[k]).tool@ == "edit_ticket"@ && jv_get_str(
            actions[k].arguments@,
            "task_id"@,
        ) == Some(id)
}

/// A dependent ticket whose edit flag disagrees with the actions, if so.
pub open spec fn impact_action_error(actions: Seq<PlannerAction>, imp: PlannerDependencyImpact) -> Option<Seq<char>> {
    let edited = edits_ticket(actions, imp.ticket_id@);
    if imp.action_required && !edited {
        Some(
            "planner marked dependent ticket "@ + quoted(imp.ticket_id@)
                + " as requiring action but did not include a matching edit_ticket action"@,
        )
    } else if !imp.action_required && edited {
        Some("planner edited dependent ticket "@ + quoted(imp.ticket_id@) + " without marking action_required=true"@)
    } else {
        None
    }
}

pub open spec fn impact_action_check(actions: Seq<PlannerAction>, imps: Seq<PlannerDependencyImpact>) -> spec_fn(int) -> Option<Seq<char>> {
    |i: int| impact_action_error(actions, imps[i])
}

/// The first rule a plan breaks, in the order the rules are checked; `None`
/// for a plan that may be executed.
pub open spec fn plan_error(p: PlannerPlan, tools: Seq<Tool>) -> Option<Seq<char>> {
    let imps = p.dependent_tickets_impacted@;
    let cs = p.new_commitments_detected@;
    let acts = p.tool_actions@;
    if blank(p.user_goal@) {
        Some("planner returned an empty user_goal"@)
    } else if blank(p.user_reply_strategy@) {
        Some("planner returned an empty user_reply_strategy"@)
    } else if acts.len() > 0 && p.grounded_facts@.len() == 0 {
        Some("planner proposed tool actions without grounded facts"@)
    } else if any_blank(p.grounded_facts@) {
        Some("planner returned an empty grounded fact"@)
    } else if any_blank(p.time_constraints@) {
        Some("planner returned an empty time constraint"@)
    } else if any_blank(p.existing_tickets_relevant@) {
        Some("planner returned an empty relevant-ticket reference"@)
    } else if any_blank(p.proactive_opportunities@) {
        Some("planner returned an empty proactive opportunity"@)
    } else if any_blank(p.assumptions_to_apply@) {
        Some("planner returned an empty assumption"@)
    } else if acts.len() > 8 {
        Some("planner returned too many actions"@)
    } else if first_some(impact_check(imps), 0, imps.len() as int) is Some {
        first_some(impact_check(imps), 0, imps.len() as int)
    } else if first_some(commitment_check(cs), 0, cs.len() as int) is Some {
        first_some(commitment_check(cs), 0, cs.len() as int)
    } else if first_some(action_check(tools, acts), 0, acts.len() as int) is Some {
        first_some(action_check(tools, acts), 0, acts.len() as int)
    } else if first_some(commitment_action_check(acts, cs), 0, cs.len() as int) is Some {
        first_some(commitment_action_check(acts, cs), 0, cs.len() as int)
    } else {
        first_some(impact_action_check(acts, imps), 0, imps.len() as int)
    }
}

/// `'s'` as a text.
fn quote(s: &str) -> (r: String)
    ensures
        r@ == quoted(s@),
{
    concat3("'", s, "'")
}

/// Checks the dependent tickets in order.
fn check_impacts(imps: &Vec<PlannerDependencyImpact>) -> (r: Option<String>)
    ensures
        opt_msg(r) == first_some(impact_check(imps@), 0, imps@.len() as int),
{
    let ghost f = impact_check(imps@);
    let mut i: usize = 0;
    while i < imps.len()
        invariant
            i <= imps.len(),
            f == impact_check(imps@),
            forall|j: int| 0 <= j < i ==> (#[trigger] f(j)) is None,
        decreases imps.len() - i,
    {
        let imp = &imps[i];
        let id = imp.ticket_id.as_str();
        let mut err: Option<String> = None;
        if is_blank(id) {
            err = Some("planner returned a dependent ticket with an empty ticket_id".to_owned());
        } else if is_blank(imp.reason.as_str()) {
            let q = quote(id);
            err = Some(concat2("planner returned an empty dependency reason for ticket ", q.as_str()));
        } else {
            let title_blank = match &imp.title {
                Some(t) => is_blank(t.as_str()),
                None => false,
            };
            if title_blank {
                let q = quote(id);
                err = Some(concat2("planner returned an empty dependency title for ticket ", q.as_str()));
            } else {
                let mut j: usize = 0;
                let mut dup = false;
                while j < i
                    invariant
                        j <= i < imps.len(),
                        id@ == imps@[i as int].ticket_id@,
                        !dup ==> forall|m: int| 0 <= m < j ==> #[trigger] imps@[m].ticket_id@ != imps@[i as int].ticket_id@,
                        dup ==> exists|m: int| 0 <= m < i && #[trigger] imps@[m].ticket_id@ == imps@[i as int].ticket_id@,
                    decreases i - j,
                {
                    if !dup && str_eq(imps[j].ticket_id.as_str(), id) {
                        dup = true;
                    }
                    j = j + 1;
                }
                if dup {
                    let q = quote(id);
                    err = Some(concat3("planner listed dependent ticket ", q.as_str(), " more than once"));
                }
            }
        }
        proof {
            reveal_strlit("");
        }
        match err {
            Some(e) => {
                proof {
                    lemma_first_some_skip(f, i as int, imps@.len() as int);
                    assert(""@ =~= Seq::<char>::empty());
                }
                return Some(e);
            },
            None => {},
        }
        i = i + 1;
    }
    proof {
        lemma_first_some_skip(f, i as int, imps@.len() as int);
    }
    None
}

/// The content of an optional message.
pub open spec fn opt_msg(o: Option<String>) -> Option<Seq<char>> {
    match o {
        Some(s) => Some(s@),
        None => None,
    }
}

/// Whether some entry has key `k` (`Map::contains_key`).
pub fn entries_has(es: &JsonMap, k: &str) -> (r: bool)
    ensures
        r == entry_has(entries_view(es@), k@),
{
    proof {
        lemma_entries_view(es@);
    }
    let mut i: usize = 0;
    while i < es.len()
        invariant
            i <= es.len(),
            entries_view(es@).len() == es@.len(),
            forall|j: int| 0 <= j < es@.len() ==> #[trigger] entries_view(es@)[j] == (es@[j].0@, es@[j].1@),
            forall|j: int| 0 <= j < i ==> #[trigger] entries_view(es@)[j].0 != k@,
        decreases es.len() - i,
    {
        if str_eq(es[i].0.as_str(), k) {
            proof {
                assert(entries_view(es@)[i as int].0 == k@);
            }
            return true;
        }
        i = i + 1;
    }
    false
}

/// Whether the commitment's trimmed title equals `norm` once ASCII lower-cased.
fn has_same_title(c: &PlannerCommitment, norm: &str, t: Ghost<Seq<char>>) -> (r: bool)
    requires
        norm@ == ascii_lower(t@),
    ensures
        r == same_title(*c, t@),
{
    match &c.title {
        Some(raw) => {
            let u = trim(raw.as_str());
            let lu = to_ascii_lowercase(u.as_str());
            str_eq(lu.as_str(), norm)
        },
        None => false,
    }
}

/// Checks the commitments in order.
fn check_commitments(cs: &Vec<PlannerCommitment>) -> (r: Option<String>)
    ensures
        opt_msg(r) == first_some(commitment_check(cs@), 0, cs@.len() as int),
{
    let ghost f = commitment_check(cs@);
    let mut i: usize = 0;
    while i < cs.len()
        invariant
            i <= cs.len(),
            f == commitment_check(cs@),
            forall|j: int| 0 <= j < i ==> (#[trigger] f(j)) is None,
        decreases cs.len() - i,
    {
        let c = &cs[i];
        match &c.title {
            Some(raw) => {
                let t = trim(raw.as_str());
                if t.as_str().unicode_len() == 0 {
                    proof {
                        lemma_first_some_skip(f, i as int, cs@.len() as int);
                    }
                    return Some("planner returned a commitment with an empty title".to_owned());
                }
                let norm = to_ascii_lowercase(t.as_str());
                let mut j: usize = 0;
                let mut dup = false;
                while j < i
                    invariant
                        j <= i < cs.len(),
                        norm@ == ascii_lower(t@),
                        !dup ==> forall|q: int| 0 <= q < j ==> !#[trigger] same_title(cs@[q], t@),
                        dup ==> exists|q: int| 0 <= q < i && #[trigger] same_title(cs@[q], t@),
                    decreases i - j,
                {
                    if !dup && has_same_title(&cs[j], norm.as_str(), Ghost(t@)) {
                        dup = true;
                    }
                    j = j + 1;
                }
                if dup {
                    proof {
                        lemma_first_some_skip(f, i as int, cs@.len() as int);
                    }
                    let q = quote(t.as_str());
                    return Some(concat3("planner listed commitment ", q.as_str(), " more than once"));
                }
            },
            None => {
                let details = c.ticket_type.is_some() || c.rrule.is_some() || c.duration_minutes.is_some();
                if details {
                    proof {
                        lemma_first_some_skip(f, i as int, cs@.len() as int);
                    }
                    return Some("planner returned a commitment with scheduling details but no title".to_owned());
                }
            },
        }
        i = i + 1;
    }
    proof {
        lemma_first_some_skip(f, i as int, cs@.len() as int);
    }
    None
}

/// The position of the last tool named `name`.
fn find_tool(tools: &[Tool], name: &str) -> (r: Option<usize>)
    ensures
        match r {
            Some(t) => tool_named(tools@, name@, t as int),
            None => !(exists|t: int| tool_named(tools@, name@, t)),
        },
{
    let mut k: usize = tools.len();
    while k > 0
        invariant
            k <= tools.len(),
            forall|m: int| k <= m < tools.len() ==> #[trigger] tools@[m].function.name@ != name@,
        decreases k,
    {
        if str_eq(tools[k - 1].function.name.as_str(), name) {
            return Some(k - 1);
        }
        k = k - 1;
    }
    proof {
        if exists|t: int| tool_named(tools@, name@, t) {
            let t = choose|t: int| tool_named(tools@, name@, t);
            assert(tools@[t].function.name@ == name@);
        }
    }
    None
}

/// The first argument key the properties do not declare.
fn check_unsupported(args: &JsonMap, props: &JsonMap, tool: &str) -> (r: Option<String>)
    ensures
        opt_msg(r) == first_some(
            unsupported_check(entries_view(args@), entries_view(props@), tool@),
            0,
            args@.len() as int,
        ),
{
    proof {
        lemma_entries_view(args@);
    }
    let ghost f = unsupported_check(entries_view(args@), entries_view(props@), tool@);
    let mut k: usize = 0;
    while k < args.len()
        invariant
            k <= args.len(),
            f == unsupported_check(entries_view(args@), entries_view(props@), tool@),
            entries_view(args@).len() == args@.len(),
            forall|j: int| 0 <= j < args@.len() ==> #[trigger] entries_view(args@)[j] == (args@[j].0@, args@[j].1@),
            forall|j: int| 0 <= j < k ==> (#[trigger] f(j)) is None,
        decreases args.len() - k,
    {
        if !entries_has(props, args[k].0.as_str()) {
            proof {
                lemma_first_some_skip(f, k as int, args@.len() as int);
                assert(entries_view(args@)[k as int].0 == args@[k as int].0@);
            }
            let qk = quote(args[k].0.as_str());
            let qt = quote(tool);
            return Some(concat4("planner used unsupported argument ", qk.as_str(), " for tool ", qt.as_str()));
        }
        proof {
            assert(entries_view(args@)[k as int].0 == args@[k as int].0@);
        }
        k = k + 1;
    }
    proof {
        lemma_first_some_skip(f, k as int, args@.len() as int);
    }
    None
}

/// The first required key the arguments omit.
fn check_required(req: &Vec<JsonValue>, args: &JsonMap, tool: &str) -> (r: Option<String>)
    ensures
        opt_msg(r) == first_some(
            required_check(crate::json::items_view(req@), entries_view(args@), tool@),
            0,
            req@.len() as int,
        ),
{
    proof {
        crate::json::lemma_items_view(req@);
    }
    let ghost f = required_check(crate::json::items_view(req@), entries_view(args@), tool@);
    let mut m: usize = 0;
    while m < req.len()
        invariant
            m <= req.len(),
            f == required_check(crate::json::items_view(req@), entries_view(args@), tool@),
            crate::json::items_view(req@).len() == req@.len(),
            forall|j: int| 0 <= j < req@.len() ==> #[trigger] crate::json::items_view(req@)[j] == req@[j]@,
            forall|j: int| 0 <= j < m ==> (#[trigger] f(j)) is None,
        decreases req.len() - m,
    {
        proof {
            assert(crate::json::items_view(req@)[m as int] == req@[m as int]@);
        }
        match req[m].as_str() {
            Some(key) => {
                if !entries_has(args, key) {
                    proof {
                        lemma_first_some_skip(f, m as int, req@.len() as int);
                    }
                    let qk = quote(key);
                    let qt = quote(tool);
                    return Some(concat4("planner omitted required argument ", qk.as_str(), " for tool ", qt.as_str()));
                }
            },
            None => {},
        }
        m = m + 1;
    }
    proof {
        lemma_first_some_skip(f, m as int, req@.len() as int);
    }
    None
}

/// Whether a `create_ticket` call makes a timed event without a schedule.
fn is_timed_event_without_schedule(args: &JsonValue) -> (r: bool)
    ensures
        r == timed_event_without_schedule(args@),
{
    let ty = match args.get_string("type") {
        Some(t) => t,
        None => String::new(),
    };
    str_eq(ty.as_str(), "EVENT") && args.get_i64("duration_minutes").is_some() && args.get_string(
        "rrule",
    ).is_none()
}

/// The problem with one planned action, if any.
fn check_action(tools: &[Tool], a: &PlannerAction) -> (r: Option<String>)
    ensures
        opt_msg(r) == action_error(tools@, *a),
{
    let t = match find_tool(tools, a.tool.as_str()) {
        Some(t) => t,
        None => {
            let q = quote(a.tool.as_str());
            return Some(concat2("planner used unknown tool ", q.as_str()));
        },
    };
    proof {
        let c = choose|c: int| tool_named(tools@, a.tool@, c);
        if c < t {
            assert(tools@[t as int].function.name@ == a.tool@);
        } else if t < c {
            assert(tools@[c].function.name@ == a.tool@);
        }
        assert(c == t);
    }
    let args = match a.arguments.as_object() {
        Some(es) => es,
        None => {
            let q = quote(a.tool.as_str());
            return Some(concat3("planner arguments for ", q.as_str(), " must be a JSON object"));
        },
    };
    let schema_value = &tools[t].function.parameters;
    let schema = match schema_value.as_object() {
        Some(es) => es,
        None => {
            let q = quote(a.tool.as_str());
            return Some(concat3("tool ", q.as_str(), " has invalid schema"));
        },
    };
    let empty: JsonMap = Vec::new();
    proof {
        assert(entries_view(empty@) =~= Seq::empty());
    }
    let props: &JsonMap = match entries_get(schema, "properties") {
        Some(v) => match v.as_object() {
            Some(p) => p,
            None => &empty,
        },
        None => &empty,
    };
    proof {
        lemma_entries_view(args@);
        assert(entries_view(props@) == schema_properties(entries_view(schema@)));
    }
    match check_unsupported(args, props, a.tool.as_str()) {
        Some(e) => {
            return Some(e);
        },
        None => {},
    }
    let missing = match entries_get(schema, "required") {
        Some(v) => match v.as_array() {
            Some(req) => {
                proof {
                    crate::json::lemma_items_view(req@);
                }
                check_required(req, args, a.tool.as_str())
            },
            None => None,
        },
        None => None,
    };
    match missing {
        Some(e) => {
            return Some(e);
        },
        None => {},
    }
    if str_eq(a.tool.as_str(), "create_ticket") && is_timed_event_without_schedule(&a.arguments) {
        return Some("planner created a timed EVENT without an rrule/DTSTART schedule".to_owned());
    }
    None
}

/// Checks the planned actions in order.
fn check_actions(tools: &[Tool], acts: &Vec<PlannerAction>) -> (r: Option<String>)
    ensures
        opt_msg(r) == first_some(action_check(tools@, acts@), 0, acts@.len() as int),
{
    let ghost f = action_check(tools@, acts@);
    let mut i: usize = 0;
    while i < acts.len()
        invariant
            i <= acts.len(),
            f == action_check(tools@, acts@),
            forall|j: int| 0 <= j < i ==> (#[trigger] f(j)) is None,
        decreases acts.len() - i,
    {
        match check_action(tools, &acts[i]) {
            Some(e) => {
                proof {
                    lemma_first_some_skip(f, i as int, acts@.len() as int);
                }
                return Some(e);
            },
            None => {},
        }
        i = i + 1;
    }
    proof {
        lemma_first_some_skip(f, i as int, acts@.len() as int);
    }
    None
}

/// `format!("{:?}", o)` for an optional text.
fn debug_opt_str(o: &Option<String>) -> (r: String)
    ensures
        r@ == debug_opt_text(crate::ticket::opt_text(*o)),
{
    match o {
        Some(s) => {
            let d = debug_str(s.as_str());
            concat3("Some(", d.as_str(), ")")
        },
        None => "None".to_owned(),
    }
}

/// `format!("{:?}", o)` for an optional integer.
fn debug_opt_i64(o: Option<i64>) -> (r: String)
    ensures
        r@ == debug_opt_int(o),
{
    match o {
        Some(n) => {
            let d = i64_text(n);
            concat3("Some(", d.as_str(), ")")
        },
        None => "None".to_owned(),
    }
}

/// Whether the action creates a ticket titled `title` (up to ASCII case).
fn is_create_titled(a: &PlannerAction, title: &str) -> (r: bool)
    ensures
        r == creates_titled(*a, title@),
{
    if !str_eq(a.tool.as_str(), "create_ticket") {
        return false;
    }
    match a.arguments.get_string("title") {
        Some(c) => eq_ignore_ascii_case(c.as_str(), title),
        None => false,
    }
}

/// The mismatch between a commitment and the arguments creating it.
fn check_created(c: &PlannerCommitment, title: &str, args: &JsonValue) -> (r: Option<String>)
    ensures
        opt_msg(r) == created_mismatch(*c, title@, args@),
{
    let q = quote(title);
    let head = concat2("planner commitment ", q.as_str());
    match &c.ticket_type {
        Some(et) => {
            let actual = args.get_string("type");
            let same = match &actual {
                Some(x) => str_eq(x.as_str(), et.as_str()),
                None => false,
            };
            if !same {
                let qe = quote(et.as_str());
                let d = debug_opt_str(&actual);
                let qa = quote(d.as_str());
                return Some(concat5(head.as_str(), " expected type ", qe.as_str(), " but create_ticket used ", qa.as_str()));
            }
        },
        None => {},
    }
    match &c.rrule {
        Some(er) => {
            let actual = args.get_string("rrule");
            let same = match &actual {
                Some(x) => str_eq(x.as_str(), er.as_str()),
                None => false,
            };
            if !same {
                let qe = quote(er.as_str());
                let d = debug_opt_str(&actual);
                let qa = quote(d.as_str());
                return Some(concat5(head.as_str(), " expected schedule ", qe.as_str(), " but create_ticket used ", qa.as_str()));
            }
        },
        None => {},
    }
    match c.duration_minutes {
        Some(d) => {
            let actual = args.get_i64("duration_minutes");
            if actual != Some(d) {
                let dt = i64_text(d);
                let qe = quote(dt.as_str());
                let da = debug_opt_i64(actual);
                let qa = quote(da.as_str());
                return Some(concat5(head.as_str(), " expected duration ", qe.as_str(), " but create_ticket used ", qa.as_str()));
            }
        },
        None => {},
    }
    None
}

/// The problem with how the actions carry out one commitment.
fn check_commitment_action(acts: &Vec<PlannerAction>, c: &PlannerCommitment) -> (r: Option<String>)
    ensures
        opt_msg(r) == commitment_action_error(acts@, *c),
{
    let title = match &c.title {
        Some(t) => t,
        None => {
            return None;
        },
    };
    let details = c.ticket_type.is_some() || c.rrule.is_some() || c.duration_minutes.is_some();
    if !details {
        return None;
    }
    let mut k: usize = 0;
    while k < acts.len()
        invariant
            k <= acts.len(),
            c.title == Some(*title),
            has_details(*c),
            forall|m: int| 0 <= m < k ==> !creates_titled(#[trigger] acts@[m], title@),
        decreases acts.len() - k,
    {
        if is_create_titled(&acts[k], title.as_str()) {
            proof {
                assert(creates_titled(acts@[k as int], title@));
                assert(0 <= k < acts@.len() && creates_titled(acts@[k as int], title@) && forall|m: int|
                    0 <= m < k ==> !creates_titled(#[trigger] acts@[m], title@));
                let w = choose|w: int|
                    0 <= w < acts@.len() && creates_titled(acts@[w], title@) && forall|m: int|
                        0 <= m < w ==> !creates_titled(#[trigger] acts@[m], title@);
                if w < k {
                } else if k < w {
                    assert(creates_titled(acts@[k as int], title@));
                }
                assert(w == k);
            }
            return check_created(c, title.as_str(), &acts[k].arguments);
        }
        k = k + 1;
    }
    let q = quote(title.as_str());
    Some(concat3("planner detected commitment ", q.as_str(), " but did not create a matching ticket action"))
}

/// Checks how the actions carry out the commitments, in order.
fn check_commitment_actions(acts: &Vec<PlannerAction>, cs: &Vec<PlannerCommitment>) -> (r: Option<String>)
    ensures
        opt_msg(r) == first_some(commitment_action_check(acts@, cs@), 0, cs@.len() as int),
{
    let ghost f = commitment_action_check(acts@, cs@);
    let mut i: usize = 0;
    while i < cs.len()
        invariant
            i <= cs.len(),
            f == commitment_action_check(acts@, cs@),
            forall|j: int| 0 <= j < i ==> (#[trigger] f(j)) is None,
        decreases cs.len() - i,
    {
        match check_commitment_action(acts, &cs[i]) {
            Some(e) => {
                proof {
                    lemma_first_some_skip(f, i as int, cs@.len() as int);
                }
                return Some(e);
            },
            None => {},
        }
        i = i + 1;
    }
    proof {
        lemma_first_some_skip(f, i as int, cs@.len() as int);
    }
    None
}

/// Whether some action edits the ticket `ticket_id`.
pub fn has_matching_edit_action(plan: &PlannerPlan, ticket_id: &str) -> (r: bool)
    ensures
        r == edits_ticket(plan.tool_actions@, ticket_id@),
{
    let acts = &plan.tool_actions;
    let mut k: usize = 0;
    while k < acts.len()
        invariant
            k <= acts.len(),
            acts@ == plan.tool_actions@,
            forall|m: int|
                0 <= m < k ==> !((#[trigger] acts@[m]).tool@ == "edit_ticket"@ && jv_get_str(
                    acts@[m].arguments@,
                    "task_id"@,
                ) == Some(ticket_id@)),
        decreases acts.len() - k,
    {
        let edits = str_eq(acts[k].tool.as_str(), "edit_ticket") && match acts[k].arguments.get_string(
            "task_id",
        ) {
            Some(id) => str_eq(id.as_str(), ticket_id),
            None => false,
        };
        if edits {
            proof {
                assert((acts@[k as int]).tool@ == "edit_ticket"@ && jv_get_str(
                    acts@[k as int].arguments@,
                    "task_id"@,
                ) == Some(ticket_id@));
            }
            return true;
        }
        k = k + 1;
    }
    false
}

/// Checks the dependent tickets' edit flags against the actions, in order.
fn check_impact_actions(plan: &PlannerPlan) -> (r: Option<String>)
    ensures
        opt_msg(r) == first_some(
            impact_action_check(plan.tool_actions@, plan.dependent_tickets_impacted@),
            0,
            plan.dependent_tickets_impacted@.len() as int,
        ),
{
    let imps = &plan.dependent_tickets_impacted;
    let ghost f = impact_action_check(plan.tool_actions@, imps@);
    let mut i: usize = 0;
    while i < imps.len()
        invariant
            i <= imps.len(),
            imps == &plan.dependent_tickets_impacted,
            f == impact_action_check(plan.tool_actions@, imps@),
            forall|j: int| 0 <= j < i ==> (#[trigger] f(j)) is None,
        decreases imps.len() - i,
    {
        let imp = &imps[i];
        let edited = has_matching_edit_action(plan, imp.ticket_id.as_str());
        if imp.action_required && !edited {
            proof {
                lemma_first_some_skip(f, i as int, imps@.len() as int);
            }
            let q = quote(imp.ticket_id.as_str());
            return Some(concat3("planner marked dependent ticket ", q.as_str(), " as requiring action but did not include a matching edit_ticket action"));
        }
        if !imp.action_required && edited {
            proof {
                lemma_first_some_skip(f, i as int, imps@.len() as int);
            }
            let q = quote(imp.ticket_id.as_str());
            return Some(concat3("planner edited dependent ticket ", q.as_str(), " without marking action_required=true"));
        }
        i = i + 1;
    }
    proof {
        lemma_first_some_skip(f, i as int, imps@.len() as int);
    }
    None
}

/// Accepts a plan only if it breaks none of the planning rules; otherwise
/// the first rule broken, in the order `plan_error` checks them.
pub fn validate_plan(plan: PlannerPlan, tools: &[Tool]) -> (r: Result<PlannerPlan, String>)
    ensures
        match r {
            Ok(p) => plan_error(plan, tools@) is None && p == plan,
            Err(e) => plan_error(plan, tools@) == Some(e@),
        },
{
    if is_blank(plan.user_goal.as_str()) {
        return Err("planner returned an empty user_goal".to_owned());
    }
    if is_blank(plan.user_reply_strategy.as_str()) {
        return Err("planner returned an empty user_reply_strategy".to_owned());
    }
    if plan.tool_actions.len() > 0 && plan.grounded_facts.len() == 0 {
        return Err("planner proposed tool actions without grounded facts".to_owned());
    }
    if has_blank(&plan.grounded_facts) {
        return Err("planner returned an empty grounded fact".to_owned());
    }
    if has_blank(&plan.time_constraints) {
        return Err("planner returned an empty time constraint".to_owned());
    }
    if has_blank(&plan.existing_tickets_relevant) {
        return Err("planner returned an empty relevant-ticket reference".to_owned());
    }
    if has_blank(&plan.proactive_opportunities) {
        return Err("planner returned an empty proactive opportunity".to_owned());
    }
    if has_blank(&plan.assumptions_to_apply) {
        return Err("planner returned an empty assumption".to_owned());
    }
    if plan.tool_actions.len() > MAX_PLAN_ACTIONS {
        return Err("planner returned too many actions".to_owned());
    }
    match check_impacts(&plan.dependent_tickets_impacted) {
        Some(e) => {
            return Err(e);
        },
        None => {},
    }
    match check_commitments(&plan.new_commitments_detected) {
        Some(e) => {
            return Err(e);
        },
        None => {},
    }
    match check_actions(tools, &plan.tool_actions) {
        Some(e) => {
            return Err(e);
        },
        None => {},
    }
    match check_commitment_actions(&plan.tool_actions, &plan.new_commitments_detected) {
        Some(e) => {
            return Err(e);
        },
        None => {},
    }
    match check_impact_actions(&plan) {
        Some(e) => {
            return Err(e);
        },
        None => {},
    }
    Ok(plan)
}

} // verus!
