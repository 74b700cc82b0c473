//! The conversation loop's decisions: which tools a reply asks for (also
//! when the model wrote the call as JSON text), and how the conversation
//! grows with each reply and tool result.
use vstd::prelude::*;
use crate::find::{first_match, is_first, lemma_first_match_at, lemma_first_match_none};
use crate::json::{JsonValue, JsonV, jv_get, jv_get_str, lemma_items_view};
use crate::jsontext::{parse_json, parsed_json, compact_json, json_to_text};
use crate::provider::{Message, MessageV, Role, ToolCall, ToolFunctionCall, call_view, calls_view, copy_calls};
use crate::text::{chars_of, string_from_chars, find_from, occurs_at, owned, concat2};
use crate::clock::new_uuid;
use crate::ticket::{opt_text, clone_opt_text};

verus! {

/// Turns of the conversation loop allowed before it gives up.
pub const CHAT_MAX_ITERATIONS: u32 = 5;

/// The arguments of a tool call written as JSON: a text is taken as it is,
/// anything else (missing: `null`) as its compact JSON text.
pub open spec fn call_args_text(a: Option<JsonV>) -> Seq<char> {
    match a {
        Some(JsonV::Str(s)) => s,
        Some(x) => compact_json(x),
        None => compact_json(JsonV::Null),
    }
}

/// The call an object describes, as (name, arguments): only where it has a
/// text `"name"`.
pub open spec fn single_call(v: JsonV) -> Seq<(Seq<char>, Seq<char>)> {
    match jv_get_str(v, "name"@) {
        Some(n) => seq![(n, call_args_text(jv_get(v, "arguments"@)))],
        None => Seq::empty(),
    }
}

/// The calls the items of an array describe, in order.
pub open spec fn calls_in_items(xs: Seq<JsonV>) -> Seq<(Seq<char>, Seq<char>)>
    decreases xs.len(),
{
    if xs.len() == 0 {
        Seq::empty()
    } else {
        calls_in_items(xs.drop_last()) + single_call(xs.last())
    }
}

/// The calls a JSON value describes: each item of an array, or the value itself.
pub open spec fn calls_in(v: JsonV) -> Seq<(Seq<char>, Seq<char>)> {
    match v {
        JsonV::Array(xs) => calls_in_items(xs),
        _ => single_call(v),
    }
}

/// The (name, arguments) of each call.
pub open spec fn named_calls(v: Seq<ToolCall>) -> Seq<(Seq<char>, Seq<char>)> {
    v.map_values(|c: ToolCall| (c.function.name@, c.function.arguments@))
}

/// A call made up from text: typed `"function"`, with a fresh UUID.
pub open spec fn recovered_call(c: ToolCall) -> bool {
    c.call_type@ == "function"@ && c.id@.len() == 36
}

/// Appends the call `json_val` describes, if it names one.
pub fn extract_single_tool_call(json_val: &JsonValue, tool_calls: &mut Vec<ToolCall>)
    ensures
        named_calls(final(tool_calls)@) == named_calls(old(tool_calls)@) + single_call(json_val@),
        old(tool_calls)@.len() <= final(tool_calls)@.len(),
        final(tool_calls)@.subrange(0, old(tool_calls)@.len() as int) == old(tool_calls)@,
        forall|i: int|
            old(tool_calls)@.len() <= i < final(tool_calls)@.len() ==> recovered_call(
                #[trigger] final(tool_calls)@[i],
            ),
{
    let name = match json_val.get_string("name") {
        Some(n) => n,
        None => {
            assert(named_calls(tool_calls@) =~= named_calls(old(tool_calls)@) + single_call(json_val@));
            assert(tool_calls@.subrange(0, old(tool_calls)@.len() as int) =~= old(tool_calls)@);
            return;
        },
    };
    let arguments = match json_val.get("arguments") {
        Some(JsonValue::Str(s)) => s.clone(),
        Some(other) => json_to_text(other),
        None => json_to_text(&JsonValue::Null),
    };
    let call = ToolCall {
        id: new_uuid(),
        call_type: owned("function"),
        function: ToolFunctionCall { name, arguments },
    };
    tool_calls.push(call);
    assert(named_calls(tool_calls@) =~= named_calls(old(tool_calls)@) + single_call(json_val@));
    assert(tool_calls@.subrange(0, old(tool_calls)@.len() as int) =~= old(tool_calls)@);
}

/// Appends the calls `json_val` describes: every item of an array, or the
/// value itself.
pub fn extract_tool_calls_from_json(json_val: &JsonValue, tool_calls: &mut Vec<ToolCall>)
    ensures
        named_calls(final(tool_calls)@) == named_calls(old(tool_calls)@) + calls_in(json_val@),
        old(tool_calls)@.len() <= final(tool_calls)@.len(),
        final(tool_calls)@.subrange(0, old(tool_calls)@.len() as int) == old(tool_calls)@,
        forall|i: int|
            old(tool_calls)@.len() <= i < final(tool_calls)@.len() ==> recovered_call(
                #[trigger] final(tool_calls)@[i],
            ),
{
    match json_val.as_array() {
        Some(items) => {
            proof {
                lemma_items_view(items@);
            }
            let ghost xs = crate::json::items_view(items@);
            let ghost start = named_calls(old(tool_calls)@);
            let ghost n0 = old(tool_calls)@.len();
            let mut i: usize = 0;
            assert(xs.take(0) =~= Seq::<JsonV>::empty());
            assert(named_calls(tool_calls@) =~= start + calls_in_items(xs.take(0)));
            while i < items.len()
                invariant
                    xs == crate::json::items_view(items@),
                    xs.len() == items@.len(),
                    forall|k: int| 0 <= k < items@.len() ==> #[trigger] xs[k] == items@[k]@,
                    i <= items@.len(),
                    n0 == old(tool_calls)@.len(),
                    n0 <= tool_calls@.len(),
                    start == named_calls(old(tool_calls)@),
                    named_calls(tool_calls@) == start + calls_in_items(xs.take(i as int)),
                    tool_calls@.subrange(0, n0 as int) == old(tool_calls)@,
                    forall|k: int| n0 <= k < tool_calls@.len() ==> recovered_call(#[trigger] tool_calls@[k]),
                decreases items@.len() - i,
            {
                let ghost before = tool_calls@;
                extract_single_tool_call(&items[i], tool_calls);
                proof {
                    assert(xs.take(i + 1).drop_last() =~= xs.take(i as int));
                    assert(xs.take(i + 1).last() == items@[i as int]@);
                    assert(named_calls(tool_calls@) =~= start + calls_in_items(xs.take(i + 1)));
                    assert(tool_calls@.subrange(0, n0 as int) =~= before.subrange(0, n0 as int));
                    assert forall|k: int| n0 <= k < tool_calls@.len() implies recovered_call(
                        #[trigger] tool_calls@[k],
                    ) by {
                        if k < before.len() {
                            assert(tool_calls@[k] == tool_calls@.subrange(0, before.len() as int)[k]);
                        }
                    }
                }
                i = i + 1;
            }
            assert(xs.take(items@.len() as int) =~= xs);
        },
        None => {
            extract_single_tool_call(json_val, tool_calls);
        },
    }
}

/// Position `from + k` of `s` holds `p`.
pub open spec fn occurs_from(s: Seq<char>, p: Seq<char>, from: int) -> spec_fn(int) -> bool {
    |k: int| occurs_at(s, p, from + k)
}

/// The first position at or after `from` where `p` occurs in `s` (`str::find`
/// on the rest of the text).
pub open spec fn next_occ(s: Seq<char>, p: Seq<char>, from: int) -> Option<int> {
    match first_match(s.len() - from + 1, occurs_from(s, p, from)) {
        Some(k) => Some(from + k),
        None => None,
    }
}

/// Where `p` next occurs in `s` at or after `from`.
pub fn next_occurrence(s: &Vec<char>, p: &Vec<char>, from: usize) -> (r: Option<usize>)
    requires
        from <= s@.len(),
    ensures
        match r {
            Some(i) => next_occ(s@, p@, from as int) == Some(i as int) && occurs_at(s@, p@, i as int),
            None => next_occ(s@, p@, from as int) is None,
        },
{
    let ghost n = s@.len() - from + 1;
    let ghost pr = occurs_from(s@, p@, from as int);
    match find_from(s, p, from) {
        Some(i) => {
            proof {
                assert forall|j: int| 0 <= j < i - from implies !#[trigger] pr(j) by {
                    assert(!occurs_at(s@, p@, from + j));
                }
                assert(is_first(n, pr, i - from));
                lemma_first_match_at(n, pr, i - from);
            }
            Some(i)
        },
        None => {
            proof {
                assert forall|j: int| 0 <= j < n implies !#[trigger] pr(j) by {
                    assert(!occurs_at(s@, p@, from + j));
                }
                lemma_first_match_none(n, pr);
            }
            None
        },
    }
}

/// The calls a JSON text describes, if it is JSON.
pub open spec fn block_calls(b: Seq<char>) -> Seq<(Seq<char>, Seq<char>)> {
    match parsed_json(b) {
        Some(v) => calls_in(v),
        None => Seq::empty(),
    }
}

/// The calls described by the fenced blocks of `c` from position `i` on: a
/// block opens with three backquotes, its text starts on the next line and
/// ends at the next three backquotes; scanning stops at the first block that
/// is not complete.
pub open spec fn fenced_calls(c: Seq<char>, i: int) -> Seq<(Seq<char>, Seq<char>)>
    decreases c.len() - i,
{
    if i < 0 || i > c.len() {
        Seq::empty()
    } else {
        match next_occ(c, "```"@, i) {
            None => Seq::empty(),
            Some(p) => match next_occ(c, "\n"@, p) {
                None => Seq::empty(),
                Some(q) => match next_occ(c, "```"@, q + 1) {
                    None => Seq::empty(),
                    Some(e) => if i < e + 3 && e + 3 <= c.len() && q + 1 <= e {
                        block_calls(c.subrange(q + 1, e)) + fenced_calls(c, e + 3)
                    } else {
                        Seq::empty()
                    },
                },
            },
        }
    }
}

/// Position `c.len() - 1 - k` of `c` holds `ch`.
pub open spec fn holds_from_end(c: Seq<char>, ch: char) -> spec_fn(int) -> bool {
    |k: int| c[c.len() - 1 - k] == ch
}

/// The last position of `c` holding `ch` (`str::rfind`).
pub open spec fn last_occ(c: Seq<char>, ch: char) -> Option<int> {
    match first_match(c.len() as int, holds_from_end(c, ch)) {
        Some(k) => Some(c.len() - 1 - k),
        None => None,
    }
}

/// The last position of `c` holding `ch`.
pub fn last_occurrence(c: &Vec<char>, ch: char) -> (r: Option<usize>)
    ensures
        match r {
            Some(i) => last_occ(c@, ch) == Some(i as int) && i < c@.len(),
            None => last_occ(c@, ch) is None,
        },
{
    let ghost pr = holds_from_end(c@, ch);
    let n = c.len();
    let mut k: usize = 0;
    while k < n
        invariant
            n == c@.len(),
            pr == holds_from_end(c@, ch),
            k <= n,
            forall|j: int| 0 <= j < k ==> !#[trigger] pr(j),
        decreases n - k,
    {
        if c[n - 1 - k] == ch {
            proof {
                assert(is_first(n as int, pr, k as int));
                lemma_first_match_at(n as int, pr, k as int);
            }
            return Some(n - 1 - k);
        }
        k = k + 1;
    }
    proof {
        lemma_first_match_none(n as int, pr);
    }
    None
}

/// The calls described by the text from the first `{` to the last `}`.
pub open spec fn brace_calls(c: Seq<char>) -> Seq<(Seq<char>, Seq<char>)> {
    match (next_occ(c, "{"@, 0), last_occ(c, '}')) {
        (Some(s), Some(e)) => if e > s {
            block_calls(c.subrange(s, e + 1))
        } else {
            Seq::empty()
        },
        _ => Seq::empty(),
    }
}

/// The calls recovered from a reply's text: the whole text as JSON; else
/// its fenced blocks; else the text between the outer braces.
pub open spec fn recovered_calls(c: Seq<char>) -> Seq<(Seq<char>, Seq<char>)> {
    match parsed_json(c) {
        Some(v) => calls_in(v),
        None => {
            let f = fenced_calls(c, 0);
            if f.len() > 0 {
                f
            } else {
                brace_calls(c)
            }
        },
    }
}

/// Appends the calls described by a piece of text, if it is JSON.
fn extract_from_text(text: &[char], tool_calls: &mut Vec<ToolCall>)
    ensures
        named_calls(final(tool_calls)@) == named_calls(old(tool_calls)@) + block_calls(text@),
        old(tool_calls)@.len() <= final(tool_calls)@.len(),
        final(tool_calls)@.subrange(0, old(tool_calls)@.len() as int) == old(tool_calls)@,
        forall|i: int|
            old(tool_calls)@.len() <= i < final(tool_calls)@.len() ==> recovered_call(
                #[trigger] final(tool_calls)@[i],
            ),
{
    let t = string_from_chars(text);
    match parse_json(t.as_str()) {
        Some(v) => extract_tool_calls_from_json(&v, tool_calls),
        None => {
            assert(named_calls(tool_calls@) =~= named_calls(old(tool_calls)@) + block_calls(text@));
            assert(tool_calls@.subrange(0, old(tool_calls)@.len() as int) =~= old(tool_calls)@);
        },
    }
}

/// Recovers tool calls the model wrote as JSON text instead of calling the
/// tools: each gets a fresh id and the type `"function"`.
pub fn recover_tool_calls(content: &str) -> (r: Vec<ToolCall>)
    ensures
        named_calls(r@) == recovered_calls(content@),
        forall|i: int| 0 <= i < r@.len() ==> recovered_call(#[trigger] r@[i]),
{
    let mut tool_calls: Vec<ToolCall> = Vec::new();
    assert(named_calls(tool_calls@) =~= Seq::<(Seq<char>, Seq<char>)>::empty());
    match parse_json(content) {
        Some(v) => {
            extract_tool_calls_from_json(&v, &mut tool_calls);
            assert(named_calls(tool_calls@) =~= recovered_calls(content@));
            return tool_calls;
        },
        None => {},
    }
    let c = chars_of(content);
    let ticks = chars_of("```");
    let newline = chars_of("\n");
    proof {
        reveal_strlit("```");
        reveal_strlit("\n");
    }
    let clen = c.len();
    let mut start_idx: usize = 0;
    loop
        invariant_except_break
            c@ == content@,
            c@.len() == clen,
            ticks@ == "```"@,
            newline@ == "\n"@,
            ticks@.len() == 3,
            newline@.len() == 1,
            start_idx <= c@.len(),
            named_calls(tool_calls@) + fenced_calls(c@, start_idx as int) == fenced_calls(c@, 0),
            forall|i: int| 0 <= i < tool_calls@.len() ==> recovered_call(#[trigger] tool_calls@[i]),
        ensures
            named_calls(tool_calls@) == fenced_calls(c@, 0),
            forall|i: int| 0 <= i < tool_calls@.len() ==> recovered_call(#[trigger] tool_calls@[i]),
            c@ == content@,
        decreases c@.len() - start_idx,
    {
        let p = match next_occurrence(&c, &ticks, start_idx) {
            Some(p) => p,
            None => {
                assert(named_calls(tool_calls@) =~= fenced_calls(c@, 0));
                break;
            },
        };
        let q = match next_occurrence(&c, &newline, p) {
            Some(q) => q,
            None => {
                assert(named_calls(tool_calls@) =~= fenced_calls(c@, 0));
                break;
            },
        };
        let e = match next_occurrence(&c, &ticks, q + 1) {
            Some(e) => e,
            None => {
                assert(named_calls(tool_calls@) =~= fenced_calls(c@, 0));
                break;
            },
        };
        let ghost before = tool_calls@;
        extract_from_text(&c.as_slice()[q + 1..e], &mut tool_calls);
        proof {
            assert forall|i: int| 0 <= i < tool_calls@.len() implies recovered_call(
                #[trigger] tool_calls@[i],
            ) by {
                if i < before.len() {
                    assert(tool_calls@[i] == tool_calls@.subrange(0, before.len() as int)[i]);
                }
            }
        }
        start_idx = e + 3;
    }
    if tool_calls.len() == 0 {
        let open = chars_of("{");
        proof {
            reveal_strlit("{");
        }
        match (next_occurrence(&c, &open, 0), last_occurrence(&c, '}')) {
            (Some(s), Some(e)) => {
                if e > s && e < c.len() {
                    extract_from_text(&c.as_slice()[s..e + 1], &mut tool_calls);
                }
            },
            _ => {},
        }
        assert(named_calls(tool_calls@) =~= recovered_calls(content@));
    }
    tool_calls
}

/// The reply's own tool calls, when it has at least one.
pub open spec fn has_native_calls(m: MessageV) -> bool {
    m.tool_calls is Some && m.tool_calls->0.len() > 0
}

/// The tool calls a reply asks for, as (name, arguments): its own, or else
/// those recovered from its text.
pub open spec fn reply_calls(m: MessageV) -> Seq<(Seq<char>, Seq<char>)> {
    if has_native_calls(m) {
        m.tool_calls->0.map_values(
            |c: (Seq<char>, Seq<char>, Seq<char>, Seq<char>)| (c.2, c.3),
        )
    } else {
        match m.content {
            Some(c) => recovered_calls(c),
            None => Seq::empty(),
        }
    }
}

/// The tool calls a reply asks for: its own (kept as they are), or else those
/// recovered from its text.
pub fn tool_calls_for_reply(m: &Message) -> (r: Vec<ToolCall>)
    ensures
        named_calls(r@) == reply_calls(m@),
        has_native_calls(m@) ==> Some(r@.map_values(|c: ToolCall| call_view(c))) == m@.tool_calls,
        !has_native_calls(m@) ==> forall|i: int| 0 <= i < r@.len() ==> recovered_call(#[trigger] r@[i]),
{
    match &m.tool_calls {
        Some(v) => {
            if v.len() > 0 {
                let r = copy_calls(v);
                proof {
                    let a = r@.map_values(|c: ToolCall| call_view(c));
                    assert(named_calls(r@) =~= a.map_values(
                        |c: (Seq<char>, Seq<char>, Seq<char>, Seq<char>)| (c.2, c.3),
                    ));
                }
                return r;
            }
        },
        None => {},
    }
    match &m.content {
        Some(c) => recover_tool_calls(c.as_str()),
        None => {
            let r: Vec<ToolCall> = Vec::new();
            assert(named_calls(r@) =~= reply_calls(m@));
            r
        },
    }
}

/// What the conversation loop does after a reply.
pub enum ChatTurn {
    /// The reply answers the user; the loop ends with it.
    Done(Message),
    /// The reply asks for these tools to be run.
    CallTools(Vec<ToolCall>),
}

/// Takes in a model reply: one without tool calls ends the turn and joins
/// the conversation as it is; one with tool calls (its own, or recovered from
/// its text) joins the conversation carrying them, and they are to be run.
pub fn chat_step(messages: &mut Vec<Message>, response: Message) -> (r: ChatTurn)
    ensures
        final(messages)@.len() == old(messages)@.len() + 1,
        final(messages)@.subrange(0, old(messages)@.len() as int) == old(messages)@,
        match r {
            ChatTurn::Done(m) => {
                &&& m == response
                &&& reply_calls(response@).len() == 0
                &&& final(messages)@.last()@ == response@
            },
            ChatTurn::CallTools(calls) => {
                &&& calls@.len() > 0
                &&& named_calls(calls@) == reply_calls(response@)
                &&& final(messages)@.last()@ == (MessageV {
                    tool_calls: Some(calls@.map_values(|c: ToolCall| call_view(c))),
                    ..response@
                })
            },
        },
{
    let calls = tool_calls_for_reply(&response);
    if calls.len() == 0 {
        messages.push(response.copy());
        assert(messages@.subrange(0, old(messages)@.len() as int) =~= old(messages)@);
        return ChatTurn::Done(response);
    }
    let with_tools = Message {
        role: response.role,
        content: clone_opt_text(&response.content),
        tool_calls: Some(copy_calls(&calls)),
        tool_call_id: clone_opt_text(&response.tool_call_id),
        name: clone_opt_text(&response.name),
    };
    messages.push(with_tools);
    assert(messages@.subrange(0, old(messages)@.len() as int) =~= old(messages)@);
    ChatTurn::CallTools(calls)
}

/// The message reporting a tool's outcome: its result, or the error (as
/// rendered for debugging) after `"Error executing tool: "`.
pub open spec fn tool_result_view(call: ToolCall, outcome: Result<Seq<char>, Seq<char>>) -> MessageV {
    MessageV {
        role: Role::Tool,
        content: Some(
            match outcome {
                Ok(t) => t,
                Err(e) => "Error executing tool: "@ + e,
            },
        ),
        tool_calls: None,
        tool_call_id: Some(call.id@),
        name: Some(call.function.name@),
    }
}

/// The content of a text result.
pub open spec fn text_result(r: Result<String, String>) -> Result<Seq<char>, Seq<char>> {
    match r {
        Ok(t) => Ok(t@),
        Err(e) => Err(e@),
    }
}

/// Adds a tool's outcome to the conversation, answering `call`.
pub fn record_tool_result(messages: &mut Vec<Message>, call: &ToolCall, outcome: Result<String, String>)
    ensures
        final(messages)@.len() == old(messages)@.len() + 1,
        final(messages)@.subrange(0, old(messages)@.len() as int) == old(messages)@,
        final(messages)@.last()@ == tool_result_view(*call, text_result(outcome)),
{
    let content = match outcome {
        Ok(t) => t,
        Err(e) => concat2("Error executing tool: ", e.as_str()),
    };
    messages.push(
        Message {
            role: Role::Tool,
            content: Some(content),
            tool_calls: None,
            tool_call_id: Some(call.id.clone()),
            name: Some(call.function.name.clone()),
        },
    );
    assert(messages@.subrange(0, old(messages)@.len() as int) =~= old(messages)@);
}

/// Position `i` holds a system message.
pub open spec fn is_system_at(ms: Seq<Message>) -> spec_fn(int) -> bool {
    |i: int| ms[i].role == Role::System
}

/// Replaces the first system message with a fresh one holding `fresh`; a
/// conversation without one stays as it is.
pub fn refresh_system_context(messages: &mut Vec<Message>, fresh: String)
    ensures
        match first_match(old(messages)@.len() as int, is_system_at(old(messages)@)) {
            Some(i) => {
                &&& final(messages)@.len() == old(messages)@.len()
                &&& forall|j: int|
                    0 <= j < old(messages)@.len() && j != i ==> #[trigger] final(messages)@[j]
                        == old(messages)@[j]
                &&& final(messages)@[i]@ == (MessageV {
                    role: Role::System,
                    content: Some(fresh@),
                    tool_calls: None,
                    tool_call_id: None,
                    name: None,
                })
            },
            None => final(messages)@ == old(messages)@,
        },
{
    let ghost ms = messages@;
    let ghost pr = is_system_at(ms);
    let mut i: usize = 0;
    while i < messages.len()
        invariant
            ms == messages@,
            ms == old(messages)@,
            pr == is_system_at(ms),
            i <= ms.len(),
            forall|j: int| 0 <= j < i ==> !#[trigger] pr(j),
        decreases ms.len() - i,
    {
        if messages[i].role == Role::System {
            proof {
                assert(is_first(ms.len() as int, pr, i as int));
                lemma_first_match_at(ms.len() as int, pr, i as int);
            }
            messages.set(i, Message::text(Role::System, fresh));
            return;
        }
        i = i + 1;
    }
    proof {
        lemma_first_match_none(ms.len() as int, pr);
    }
}

} // verus!
