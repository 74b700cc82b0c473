//! Reading the planning model's reply: the JSON in it, the plan that JSON
//! describes, and the summary of an executed plan handed back to the model.
use vstd::prelude::*;
use crate::find::{first_match, is_first, lemma_first_match_at, lemma_first_match_none};
use crate::chat::{next_occ, last_occ, next_occurrence, last_occurrence};
use crate::json::{JsonValue, JsonV};
use crate::jsontext::{parse_json, parsed_json};
use crate::text::{
    chars_of, string_from_chars, occurs_at, has_prefix, matches_at, trim, trim_spec,
};
use crate::ticket::opt_json;
use crate::provider::{Message, MessageV, Role, ToolCall, ToolFunctionCall};
use crate::clock::new_uuid;
use crate::chat::{named_calls, recovered_call};
use crate::planner::{PlannerPlan, PlannerAction, PlannerCommitment, PlannerDependencyImpact};
use crate::jsontext::{compact_json, json_to_text};
use crate::text::{texts, join_by, join_strings, concat2, concat3, concat4, concat5, int_text, i64_text, owned};

verus! {

/// Position `s.len() - p.len() - k` of `s` holds `p`.
pub open spec fn occurs_from_end(s: Seq<char>, p: Seq<char>) -> spec_fn(int) -> bool {
    |k: int| occurs_at(s, p, s.len() - p.len() - k)
}

/// The last position where `p` occurs in `s` (`str::rfind`).
pub open spec fn last_occ_of(s: Seq<char>, p: Seq<char>) -> Option<int> {
    match first_match(s.len() - p.len() + 1, occurs_from_end(s, p)) {
        Some(k) => Some(s.len() - p.len() - k),
        None => None,
    }
}

/// The last position where `p` occurs in `s`.
fn last_occurrence_of(s: &Vec<char>, p: &Vec<char>) -> (r: Option<usize>)
    ensures
        match r {
            Some(i) => last_occ_of(s@, p@) == Some(i as int) && occurs_at(s@, p@, i as int),
            None => last_occ_of(s@, p@) is None,
        },
{
    let ghost pr = occurs_from_end(s@, p@);
    if p.len() > s.len() {
        proof {
            assert forall|k: int| 0 <= k < s@.len() - p@.len() + 1 implies !#[trigger] pr(k) by {}
            lemma_first_match_none(s@.len() - p@.len() + 1, pr);
        }
        return None;
    }
    let m = s.len() - p.len();
    let ghost n = m + 1;
    let mut k: usize = 0;
    loop
        invariant
            p@.len() <= s@.len(),
            m == s@.len() - p@.len(),
            n == m + 1,
            pr == occurs_from_end(s@, p@),
            k <= m,
            forall|j: int| 0 <= j < k ==> !#[trigger] pr(j),
        decreases m - k,
    {
        let at = m - k;
        if matches_at(s, p, at) {
            proof {
                assert(is_first(n as int, pr, k as int));
                lemma_first_match_at(n as int, pr, k as int);
            }
            return Some(at);
        }
        if k == m {
            proof {
                lemma_first_match_none(n as int, pr);
            }
            return None;
        }
        k = k + 1;
    }
}

/// The JSON of a fenced reply: after the opening backquotes and the rest of
/// their line, up to the last closing backquotes, trimmed.
pub open spec fn fenced_json(t: Seq<char>) -> Option<JsonV> {
    if has_prefix(t, "```"@) {
        let stripped = t.skip(3);
        let without_lang = match next_occ(stripped, "\n"@, 0) {
            Some(n) => stripped.skip(n + 1),
            None => stripped,
        };
        match last_occ_of(without_lang, "```"@) {
            Some(e) => parsed_json(trim_spec(without_lang.take(e))),
            None => None,
        }
    } else {
        None
    }
}

/// The JSON between the first `{` and the last `}`.
pub open spec fn braced_json(c: Seq<char>) -> Option<JsonV> {
    match (next_occ(c, "{"@, 0), last_occ(c, '}')) {
        (Some(s), Some(e)) => if e > s {
            parsed_json(c.subrange(s, e + 1))
        } else {
            None
        },
        _ => None,
    }
}

/// The first JSON value found in a reply: the whole reply; else, for a
/// reply fenced with backquotes, the fenced text; else the text between the
/// outer braces.
pub open spec fn first_json_value(c: Seq<char>) -> Option<JsonV> {
    match parsed_json(c) {
        Some(v) => Some(v),
        None => match fenced_json(trim_spec(c)) {
            Some(v) => Some(v),
            None => braced_json(c),
        },
    }
}

/// The JSON of a fenced reply, if it is fenced.
fn fenced_candidate(t: &Vec<char>) -> (r: Option<JsonValue>)
    ensures
        opt_json(r) == fenced_json(t@),
{
    let ticks = chars_of("```");
    proof {
        reveal_strlit("```");
    }
    if !matches_at(t, &ticks, 0) {
        return None;
    }
    let stripped = string_from_chars(&t.as_slice()[3..t.len()]);
    let sc = chars_of(stripped.as_str());
    assert(sc@ =~= t@.skip(3));
    let newline = chars_of("\n");
    proof {
        reveal_strlit("\n");
    }
    let w = match next_occurrence(&sc, &newline, 0) {
        Some(n) => {
            let w = string_from_chars(&sc.as_slice()[n + 1..sc.len()]);
            assert(w@ =~= sc@.skip(n + 1));
            w
        },
        None => stripped,
    };
    let wc = chars_of(w.as_str());
    match last_occurrence_of(&wc, &ticks) {
        Some(e) => {
            let body = string_from_chars(&wc.as_slice()[0..e]);
            assert(body@ =~= wc@.take(e as int));
            let candidate = trim(body.as_str());
            parse_json(candidate.as_str())
        },
        None => None,
    }
}

/// The first JSON value found in a reply: the whole reply, a reply fenced
/// with backquotes, or the text between its outer braces.
pub fn extract_first_json_value(content: &str) -> (r: Option<JsonValue>)
    ensures
        opt_json(r) == first_json_value(content@),
{
    match parse_json(content) {
        Some(v) => {
            return Some(v);
        },
        None => {},
    }
    let trimmed = trim(content);
    let tc = chars_of(trimmed.as_str());
    match fenced_candidate(&tc) {
        Some(v) => {
            return Some(v);
        },
        None => {},
    }
    let c = chars_of(content);
    let open = chars_of("{");
    proof {
        reveal_strlit("{");
    }
    match (next_occurrence(&c, &open, 0), last_occurrence(&c, '}')) {
        (Some(s), Some(e)) => {
            if e > s {
                let candidate = string_from_chars(&c.as_slice()[s..e + 1]);
                parse_json(candidate.as_str())
            } else {
                None
            }
        },
        _ => None,
    }
}

/// `"- none"` in place of an empty section.
pub open spec fn or_none(t: Seq<char>) -> Seq<char> {
    if t.len() == 0 {
        "- none"@
    } else {
        t
    }
}

/// A text as a `- text` line.
pub open spec fn dash() -> spec_fn(String) -> Seq<char> {
    |s: String| "- "@ + s@
}

/// One `- item` line per text.
pub open spec fn bullet_list(items: Seq<String>) -> Seq<char> {
    join_by(items.map_values(dash()), "\n"@)
}

/// A section's text when empty is replaced by `"- none"`.
fn or_none_text(t: String) -> (r: String)
    ensures
        r@ == or_none(t@),
{
    if t.as_str().unicode_len() == 0 {
        owned("- none")
    } else {
        t
    }
}

/// One `- item` line per text, joined by line breaks.
fn bullets(items: &Vec<String>) -> (r: String)
    ensures
        r@ == bullet_list(items@),
{
    let mut lines: Vec<String> = Vec::new();
    let mut i: usize = 0;
    while i < items.len()
        invariant
            i <= items@.len(),
            lines@.len() == i,
            forall|m: int| 0 <= m < i ==> #[trigger] lines@[m]@ == dash()(items@[m]),
        decreases items@.len() - i,
    {
        lines.push(concat2("- ", items[i].as_str()));
        i = i + 1;
    }
    assert(texts(lines@) =~= items@.map_values(dash()));
    join_strings(&lines, "\n")
}

/// A dependent ticket's line: its title (or "Unknown"), id, reason and
/// whether it needs an action.
pub open spec fn impact_line(d: PlannerDependencyImpact) -> Seq<char> {
    "- "@ + (match d.title {
        Some(t) => t@,
        None => "Unknown"@,
    }) + " ("@ + d.ticket_id@ + ") => "@ + d.reason@ + " ["@ + (if d.action_required {
        "action required"@
    } else {
        "info only"@
    }) + "]"@
}

/// The line of each dependent ticket.
pub open spec fn impact_lines_of() -> spec_fn(PlannerDependencyImpact) -> Seq<char> {
    |d: PlannerDependencyImpact| impact_line(d)
}

/// A detected commitment's line: title, type, schedule and duration.
pub open spec fn commitment_line(c: PlannerCommitment, title: Seq<char>) -> Seq<char> {
    "- "@ + title + " ("@ + (match c.ticket_type {
        Some(t) => t@,
        None => "UNKNOWN"@,
    }) + ") @ "@ + (match c.rrule {
        Some(r) => r@,
        None => "no schedule"@,
    }) + match c.duration_minutes {
        Some(v) => ", duration "@ + int_text(v as int) + " min"@,
        None => Seq::empty(),
    }
}

/// The lines of the commitments that have a title, in order.
pub open spec fn commitment_lines(cs: Seq<PlannerCommitment>) -> Seq<Seq<char>>
    decreases cs.len(),
{
    if cs.len() == 0 {
        Seq::empty()
    } else {
        let prev = commitment_lines(cs.drop_last());
        match cs.last().title {
            Some(t) => prev.push(commitment_line(cs.last(), t@)),
            None => prev,
        }
    }
}

/// An executed action's line: the tool, its arguments as JSON, and its result.
pub open spec fn action_line(r: (PlannerAction, String)) -> Seq<char> {
    "- "@ + r.0.tool@ + " "@ + compact_json(r.0.arguments@) + " => "@ + r.1@
}

/// The line of each executed action.
pub open spec fn action_lines_of() -> spec_fn((PlannerAction, String)) -> Seq<char> {
    |r: (PlannerAction, String)| action_line(r)
}

/// The summary of an executed plan handed back to the model: its goal,
/// then each section under its heading.
pub open spec fn execution_note(p: PlannerPlan, results: Seq<(PlannerAction, String)>) -> Seq<char> {
    ("PLANNER SUMMARY:\nGoal: "@ + p.user_goal@ + "\nGrounded facts:\n"@ + or_none(bullet_list(p.grounded_facts@))
        + "\nTime constraints:\n"@) + (or_none(bullet_list(p.time_constraints@)) + "\nRelevant tickets:\n"@
        + or_none(bullet_list(p.existing_tickets_relevant@)) + "\nDependent tickets impacted:\n"@ + or_none(
        join_by(p.dependent_tickets_impacted@.map_values(impact_lines_of()), "\n"@),
    )) + ("\nDetected commitments:\n"@ + or_none(join_by(commitment_lines(p.new_commitments_detected@), "\n"@))
        + "\nProactive opportunities:\n"@ + or_none(bullet_list(p.proactive_opportunities@))
        + "\nAssumptions applied:\n"@) + (or_none(bullet_list(p.assumptions_to_apply@)) + "\nExecuted actions:\n"@
        + or_none(join_by(results.map_values(action_lines_of()), "\n"@)) + "\nReply strategy: "@
        + p.user_reply_strategy@)
        + "\nUse this summary and the refreshed stack to answer the user naturally. Do not call tools again."@
}

/// The dependent tickets' lines, joined.
fn impacts_text(imps: &Vec<PlannerDependencyImpact>) -> (r: String)
    ensures
        r@ == join_by(imps@.map_values(impact_lines_of()), "\n"@),
{
    let mut lines: Vec<String> = Vec::new();
    let mut i: usize = 0;
    while i < imps.len()
        invariant
            i <= imps@.len(),
            lines@.len() == i,
            forall|m: int| 0 <= m < i ==> #[trigger] lines@[m]@ == impact_lines_of()(imps@[m]),
        decreases imps@.len() - i,
    {
        let d = &imps[i];
        let title = match &d.title {
            Some(t) => t.as_str(),
            None => "Unknown",
        };
        let flag = if d.action_required {
            "action required"
        } else {
            "info only"
        };
        let head = concat5("- ", title, " (", d.ticket_id.as_str(), ") => ");
        let line = concat5(head.as_str(), d.reason.as_str(), " [", flag, "]");
        assert(line@ =~= impact_line(*d));
        lines.push(line);
        i = i + 1;
    }
    assert(texts(lines@) =~= imps@.map_values(impact_lines_of()));
    join_strings(&lines, "\n")
}

/// The lines of the titled commitments, joined.
fn commitments_text(cs: &Vec<PlannerCommitment>) -> (r: String)
    ensures
        r@ == join_by(commitment_lines(cs@), "\n"@),
{
    let mut lines: Vec<String> = Vec::new();
    let mut j: usize = 0;
    while j < cs.len()
        invariant
            j <= cs@.len(),
            texts(lines@) == commitment_lines(cs@.take(j as int)),
        decreases cs@.len() - j,
    {
        let c = &cs[j];
        proof {
            assert(cs@.take(j + 1).drop_last() =~= cs@.take(j as int));
            assert(cs@.take(j + 1).last() == cs@[j as int]);
        }
        match &c.title {
            Some(title) => {
                let kind = match &c.ticket_type {
                    Some(t) => t.as_str(),
                    None => "UNKNOWN",
                };
                let timing = match &c.rrule {
                    Some(r) => r.as_str(),
                    None => "no schedule",
                };
                let duration = match c.duration_minutes {
                    Some(v) => {
                        let n = i64_text(v);
                        concat3(", duration ", n.as_str(), " min")
                    },
                    None => String::new(),
                };
                let line = concat2(
                    concat5("- ", title.as_str(), " (", kind, ") @ ").as_str(),
                    concat2(timing, duration.as_str()).as_str(),
                );
                assert(line@ =~= commitment_line(*c, title@));
                lines.push(line);
                assert(texts(lines@) =~= commitment_lines(cs@.take(j + 1)));
            },
            None => {
                assert(texts(lines@) =~= commitment_lines(cs@.take(j + 1)));
            },
        }
        j = j + 1;
    }
    assert(cs@.take(cs@.len() as int) =~= cs@);
    join_strings(&lines, "\n")
}

/// The executed actions' lines, joined.
fn actions_text(tool_results: &[(PlannerAction, String)]) -> (r: String)
    ensures
        r@ == join_by(tool_results@.map_values(action_lines_of()), "\n"@),
{
    let mut lines: Vec<String> = Vec::new();
    let mut k: usize = 0;
    while k < tool_results.len()
        invariant
            k <= tool_results@.len(),
            lines@.len() == k,
            forall|m: int| 0 <= m < k ==> #[trigger] lines@[m]@ == action_lines_of()(tool_results@[m]),
        decreases tool_results@.len() - k,
    {
        let pair = &tool_results[k];
        let args = json_to_text(&pair.0.arguments);
        let line = concat2(
            concat4("- ", pair.0.tool.as_str(), " ", args.as_str()).as_str(),
            concat2(" => ", pair.1.as_str()).as_str(),
        );
        assert(line@ =~= action_line(*pair));
        lines.push(line);
        k = k + 1;
    }
    assert(texts(lines@) =~= tool_results@.map_values(action_lines_of()));
    join_strings(&lines, "\n")
}

/// Summarises an executed plan for the model: goal, facts, constraints,
/// tickets, commitments, assumptions, the actions run with their results,
/// and the reply strategy; an empty section reads `- none`.
pub fn build_planner_execution_note(plan: &PlannerPlan, tool_results: &[(PlannerAction, String)]) -> (r:
    String)
    ensures
        r@ == execution_note(*plan, tool_results@),
{
    let facts = or_none_text(bullets(&plan.grounded_facts));
    let constraints = or_none_text(bullets(&plan.time_constraints));
    let relevant = or_none_text(bullets(&plan.existing_tickets_relevant));
    let deps = or_none_text(impacts_text(&plan.dependent_tickets_impacted));
    let commitments = or_none_text(commitments_text(&plan.new_commitments_detected));
    let opportunities = or_none_text(bullets(&plan.proactive_opportunities));
    let assumptions = or_none_text(bullets(&plan.assumptions_to_apply));
    let actions = or_none_text(actions_text(tool_results));
    let part1 = concat5(
        "PLANNER SUMMARY:\nGoal: ",
        plan.user_goal.as_str(),
        "\nGrounded facts:\n",
        facts.as_str(),
        "\nTime constraints:\n",
    );
    let part2 = concat5(
        constraints.as_str(),
        "\nRelevant tickets:\n",
        relevant.as_str(),
        "\nDependent tickets impacted:\n",
        deps.as_str(),
    );
    let part3 = concat5(
        "\nDetected commitments:\n",
        commitments.as_str(),
        "\nProactive opportunities:\n",
        opportunities.as_str(),
        "\nAssumptions applied:\n",
    );
    let part4 = concat5(
        assumptions.as_str(),
        "\nExecuted actions:\n",
        actions.as_str(),
        "\nReply strategy: ",
        plan.user_reply_strategy.as_str(),
    );
    let r = concat5(
        part1.as_str(),
        part2.as_str(),
        part3.as_str(),
        part4.as_str(),
        "\nUse this summary and the refreshed stack to answer the user naturally. Do not call tools again.",
    );
    r
}

/// The most earlier messages the planner sees.
pub const PLANNER_HISTORY_LIMIT: usize = 12;

/// The content of each message.
pub open spec fn msg_view() -> spec_fn(Message) -> MessageV {
    |m: Message| m@
}

/// The content of a conversation.
pub open spec fn msg_views(s: Seq<Message>) -> Seq<MessageV> {
    s.map_values(msg_view())
}

/// The conversation without its system messages.
pub open spec fn without_system(h: Seq<MessageV>) -> Seq<MessageV>
    decreases h.len(),
{
    if h.len() == 0 {
        Seq::empty()
    } else {
        let prev = without_system(h.drop_last());
        if h.last().role == Role::System {
            prev
        } else {
            prev.push(h.last())
        }
    }
}

/// The last `n` items of `s`.
pub open spec fn last_n<T>(s: Seq<T>, n: nat) -> Seq<T> {
    if s.len() <= n {
        s
    } else {
        s.skip(s.len() - n)
    }
}

/// The messages the planner is shown: its prompt, the last twelve
/// non-system messages of the conversation, then the user's message.
pub open spec fn planner_messages_view(prompt: Seq<char>, history: Seq<MessageV>, user: Seq<char>) -> Seq<MessageV> {
    seq![MessageV { role: Role::System, content: Some(prompt), tool_calls: None, tool_call_id: None, name: None }]
        + last_n(without_system(history), PLANNER_HISTORY_LIMIT as nat)
        + seq![MessageV { role: Role::User, content: Some(user), tool_calls: None, tool_call_id: None, name: None }]
}

/// The messages for the planning model.
pub fn planner_messages(prompt: String, history: &Vec<Message>, user_message: &str) -> (r: Vec<Message>)
    ensures
        msg_views(r@) == planner_messages_view(prompt@, msg_views(history@), user_message@),
{
    let ghost pv = prompt@;
    let ghost hv = msg_views(history@);
    let mut kept: Vec<Message> = Vec::new();
    let mut i: usize = 0;
    assert(hv.take(0) =~= Seq::<MessageV>::empty());
    assert(msg_views(kept@) =~= Seq::<MessageV>::empty());
    while i < history.len()
        invariant
            i <= history@.len(),
            hv == msg_views(history@),
            msg_views(kept@) == without_system(hv.take(i as int)),
        decreases history@.len() - i,
    {
        proof {
            assert(hv.take(i + 1).drop_last() =~= hv.take(i as int));
            assert(hv.take(i + 1).last() == history@[i as int]@);
        }
        if history[i].role != Role::System {
            let ghost before = kept@;
            kept.push(history[i].copy());
            proof {
                assert(msg_views(kept@) =~= msg_views(before).push(history@[i as int]@));
            }
        }
        i = i + 1;
    }
    assert(hv.take(history@.len() as int) =~= hv);
    let ghost ws = without_system(hv);
    let start = if kept.len() > PLANNER_HISTORY_LIMIT {
        kept.len() - PLANNER_HISTORY_LIMIT
    } else {
        0
    };
    let mut out: Vec<Message> = Vec::new();
    out.push(Message::text(Role::System, prompt));
    let mut k: usize = start;
    while k < kept.len()
        invariant
            start <= k <= kept@.len(),
            msg_views(kept@) == ws,
            out@.len() == 1 + (k - start),
            out@[0]@ == (MessageV { role: Role::System, content: Some(pv), tool_calls: None, tool_call_id: None, name: None }),
            forall|j: int| 0 <= j < k - start ==> #[trigger] out@[1 + j]@ == ws[start + j],
        decreases kept@.len() - k,
    {
        out.push(kept[k].copy());
        k = k + 1;
    }
    out.push(Message::text(Role::User, owned(user_message)));
    proof {
        let want = planner_messages_view(pv, hv, user_message@);
        let tail = last_n(ws, PLANNER_HISTORY_LIMIT as nat);
        assert(tail =~= ws.skip(start as int));
        assert(ws.len() == kept@.len());
        let ov = msg_views(out@);
        assert(ov.len() == want.len());
        assert forall|j: int| 0 <= j < ov.len() implies ov[j] == want[j] by {
            if 1 <= j < 1 + tail.len() {
                assert(out@[1 + (j - 1)]@ == ws[start + (j - 1)]);
            }
        }
        assert(ov =~= want);
    }
    out
}

/// The calls that carry out a plan's actions, in order, each with a fresh
/// id, the type `"function"`, the tool's name and its arguments as JSON text.
pub fn synthetic_calls(actions: &Vec<PlannerAction>) -> (r: Vec<ToolCall>)
    ensures
        named_calls(r@) == actions@.map_values(|a: PlannerAction| (a.tool@, compact_json(a.arguments@))),
        forall|i: int| 0 <= i < r@.len() ==> recovered_call(#[trigger] r@[i]),
{
    let mut out: Vec<ToolCall> = Vec::new();
    let mut i: usize = 0;
    while i < actions.len()
        invariant
            i <= actions@.len(),
            out@.len() == i,
            forall|k: int|
                0 <= k < i ==> (#[trigger] out@[k]).function.name@ == actions@[k].tool@
                    && out@[k].function.arguments@ == compact_json(actions@[k].arguments@)
                    && recovered_call(out@[k]),
        decreases actions@.len() - i,
    {
        let a = &actions[i];
        out.push(
            ToolCall {
                id: new_uuid(),
                call_type: owned("function"),
                function: ToolFunctionCall { name: a.tool.clone(), arguments: json_to_text(&a.arguments) },
            },
        );
        i = i + 1;
    }
    assert(named_calls(out@) =~= actions@.map_values(|a: PlannerAction| (a.tool@, compact_json(a.arguments@))));
    out
}

/// Puts `prompt` in the first system message, or adds one at the front.
pub fn install_system_prompt(messages: &mut Vec<Message>, prompt: String)
    ensures
        match first_match(old(messages)@.len() as int, crate::chat::is_system_at(old(messages)@)) {
            Some(i) => final(messages)@.len() == old(messages)@.len() && final(messages)@[i]@ == (MessageV {
                role: Role::System,
                content: Some(prompt@),
                tool_calls: None,
                tool_call_id: None,
                name: None,
            }) && forall|j: int|
                0 <= j < old(messages)@.len() && j != i ==> #[trigger] final(messages)@[j] == old(messages)@[j],
            None => final(messages)@.len() == old(messages)@.len() + 1 && final(messages)@[0]@ == (MessageV {
                role: Role::System,
                content: Some(prompt@),
                tool_calls: None,
                tool_call_id: None,
                name: None,
            }) && final(messages)@.skip(1) == old(messages)@,
        },
{
    let ghost ms = messages@;
    let ghost pr = crate::chat::is_system_at(ms);
    let mut i: usize = 0;
    while i < messages.len()
        invariant
            ms == messages@,
            ms == old(messages)@,
            pr == crate::chat::is_system_at(ms),
            i <= ms.len(),
            forall|j: int| 0 <= j < i ==> !#[trigger] pr(j),
        decreases ms.len() - i,
    {
        if messages[i].role == Role::System {
            proof {
                assert(is_first(ms.len() as int, pr, i as int));
                lemma_first_match_at(ms.len() as int, pr, i as int);
            }
            messages.set(i, Message::text(Role::System, prompt));
            return;
        }
        i = i + 1;
    }
    proof {
        lemma_first_match_none(ms.len() as int, pr);
    }
    messages.insert(0, Message::text(Role::System, prompt));
    assert(messages@.skip(1) =~= ms);
}

} // verus!
