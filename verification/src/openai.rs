//! The OpenAI-compatible chat protocol: where requests go, what they carry,
//! and what a reply comes to.
use vstd::prelude::*;
use crate::agent::Error;
use crate::encode::{object_of, object_from_pairs};
use crate::json::{JsonValue, JsonV, json_clone, entries_view, lemma_entries_view, items_view, lemma_items_view};
use crate::provider::{Message, MessageV, Role, Tool, ProviderConfig};
use crate::jsontext::{pretty_json, json_to_pretty_text};
use crate::text::{chars_of, string_from_chars, starts_with, has_prefix, concat2, concat4, owned, i64_text, int_text};
use crate::tools::tool_view;

verus! {

/// The tool catalogue as the planner's prompt shows it: the tools as
/// indented JSON, or `[]` where serde_json cannot write them.
pub open spec fn tools_text(ts: Seq<Tool>) -> Seq<char> {
    match pretty_json(JsonV::Array(ts.map_values(|t: Tool| tool_json(tool_view(t))))) {
        Some(t) => t,
        None => "[]"@,
    }
}

/// Writes the tool catalogue as the planner's prompt shows it (see
/// `tools_text`).
pub fn tools_json_text(ts: &[Tool]) -> (r: String)
    ensures
        r@ == tools_text(ts@),
{
    let mut listed: Vec<JsonValue> = Vec::new();
    let mut k: usize = 0;
    while k < ts.len()
        invariant
            k <= ts@.len(),
            listed@.len() == k,
            forall|j: int| 0 <= j < k ==> #[trigger] listed@[j]@ == tool_json(tool_view(ts@[j])),
        decreases ts@.len() - k,
    {
        listed.push(encode_tool(&ts[k]));
        k = k + 1;
    }
    proof {
        lemma_items_view(listed@);
        assert(items_view(listed@) =~= ts@.map_values(|t: Tool| tool_json(tool_view(t))));
    }
    match json_to_pretty_text(&JsonValue::Array(listed)) {
        Some(t) => t,
        None => owned("[]"),
    }
}

/// The sampling temperature of every request, by its JSON rendering.
pub const TEMPERATURE: &'static str = "0.7";

/// `s` without its trailing slashes (`str::trim_end_matches('/')`).
pub open spec fn trim_trailing_slashes(s: Seq<char>) -> Seq<char>
    decreases s.len(),
{
    if s.len() > 0 && s.last() == '/' {
        trim_trailing_slashes(s.drop_last())
    } else {
        s
    }
}

/// The chat completions address of an endpoint.
pub fn chat_completions_url(endpoint: &str) -> (r: String)
    ensures
        r@ == trim_trailing_slashes(endpoint@) + "/chat/completions"@,
{
    let cs = chars_of(endpoint);
    let mut n: usize = cs.len();
    assert(endpoint@.take(n as int) =~= endpoint@);
    while n > 0 && cs[n - 1] == '/'
        invariant
            cs@ == endpoint@,
            n <= cs@.len(),
            trim_trailing_slashes(endpoint@.take(n as int)) == trim_trailing_slashes(endpoint@),
        decreases n,
    {
        assert(endpoint@.take(n as int).drop_last() =~= endpoint@.take(n - 1));
        n = n - 1;
    }
    let base = string_from_chars(&cs.as_slice()[0..n]);
    assert(base@ =~= endpoint@.take(n as int));
    concat2(base.as_str(), "/chat/completions")
}

/// The wire name of a role.
pub open spec fn role_name(r: Role) -> Seq<char> {
    match r {
        Role::System => "system"@,
        Role::User => "user"@,
        Role::Assistant => "assistant"@,
        Role::Tool => "tool"@,
    }
}

/// The wire name of a role.
pub fn role_text(r: Role) -> (s: &'static str)
    ensures
        s@ == role_name(r),
{
    match r {
        Role::System => "system",
        Role::User => "user",
        Role::Assistant => "assistant",
        Role::Tool => "tool",
    }
}

/// The messages sent: each one that has a text, as its role and text.
pub open spec fn sent_messages(ms: Seq<MessageV>) -> Seq<JsonV>
    decreases ms.len(),
{
    if ms.len() == 0 {
        Seq::empty()
    } else {
        let prev = sent_messages(ms.drop_last());
        match ms.last().content {
            Some(c) => prev.push(
                object_of(seq![("role"@, JsonV::Str(role_name(ms.last().role))), ("content"@, JsonV::Str(c))]),
            ),
            None => prev,
        }
    }
}

/// A tool as the request lists it.
pub open spec fn tool_json(t: (Seq<char>, Seq<char>, Seq<char>, JsonV)) -> JsonV {
    object_of(
        seq![
            ("type"@, JsonV::Str(t.0)),
            (
                "function"@,
                object_of(
                    seq![("name"@, JsonV::Str(t.1)), ("description"@, JsonV::Str(t.2)), ("parameters"@, t.3)],
                ),
            ),
        ],
    )
}

/// The body of a chat request: the model, the messages with a text, the
/// temperature, and, when tools are offered, the tools with `"auto"` choice.
pub open spec fn request_body(model: Seq<char>, ms: Seq<MessageV>, tools: Option<Seq<Tool>>) -> JsonV {
    let base = seq![
        ("model"@, JsonV::Str(model)),
        ("messages"@, JsonV::Array(sent_messages(ms))),
        ("temperature"@, JsonV::Float(TEMPERATURE@)),
    ];
    match tools {
        Some(ts) => object_of(
            base + seq![
                ("tools"@, JsonV::Array(ts.map_values(|t: Tool| tool_json(tool_view(t))))),
                ("tool_choice"@, JsonV::Str("auto"@)),
            ],
        ),
        None => object_of(base),
    }
}

/// The content of a conversation.
pub open spec fn views_of(ms: Seq<Message>) -> Seq<MessageV> {
    ms.map_values(|m: Message| m@)
}

/// A tool as JSON.
fn encode_tool(t: &Tool) -> (r: JsonValue)
    ensures
        r@ == tool_json(tool_view(*t)),
{
    let mut f: Vec<(String, JsonValue)> = Vec::new();
    f.push((owned("name"), JsonValue::Str(t.function.name.clone())));
    f.push((owned("description"), JsonValue::Str(t.function.description.clone())));
    f.push((owned("parameters"), json_clone(&t.function.parameters)));
    proof {
        lemma_entries_view(f@);
        assert(entries_view(f@) =~= seq![
            ("name"@, JsonV::Str(t.function.name@)),
            ("description"@, JsonV::Str(t.function.description@)),
            ("parameters"@, t.function.parameters@),
        ]);
    }
    let function = object_from_pairs(f);
    let mut pairs: Vec<(String, JsonValue)> = Vec::new();
    pairs.push((owned("type"), JsonValue::Str(t.tool_type.clone())));
    pairs.push((owned("function"), function));
    proof {
        lemma_entries_view(pairs@);
        assert(entries_view(pairs@) =~= seq![
            ("type"@, JsonV::Str(t.tool_type@)),
            ("function"@, function@),
        ]);
    }
    object_from_pairs(pairs)
}

/// Builds the body of a chat request.
pub fn openai_request_body(model: &str, messages: &[Message], tools: Option<&[Tool]>) -> (r: JsonValue)
    ensures
        r@ == request_body(
            model@,
            views_of(messages@),
            match tools {
                Some(ts) => Some(ts@),
                None => None,
            },
        ),
{
    let ghost mv = views_of(messages@);
    let mut sent: Vec<JsonValue> = Vec::new();
    let mut i: usize = 0;
    proof {
        lemma_items_view(sent@);
        assert(mv.take(0) =~= Seq::<MessageV>::empty());
    }
    while i < messages.len()
        invariant
            i <= messages@.len(),
            mv == views_of(messages@),
            items_view(sent@) == sent_messages(mv.take(i as int)),
        decreases messages@.len() - i,
    {
        let m = &messages[i];
        proof {
            assert(mv.take(i + 1).drop_last() =~= mv.take(i as int));
            assert(mv.take(i + 1).last() == m@);
            lemma_items_view(sent@);
        }
        match &m.content {
            Some(c) => {
                let mut pairs: Vec<(String, JsonValue)> = Vec::new();
                pairs.push((owned("role"), JsonValue::text(role_text(m.role))));
                pairs.push((owned("content"), JsonValue::Str(c.clone())));
                proof {
                    lemma_entries_view(pairs@);
                    assert(entries_view(pairs@) =~= seq![
                        ("role"@, JsonV::Str(role_name(m.role))),
                        ("content"@, JsonV::Str(c@)),
                    ]);
                }
                let ghost before = sent@;
                sent.push(object_from_pairs(pairs));
                proof {
                    lemma_items_view(sent@);
                    lemma_items_view(before);
                    assert(items_view(sent@) =~= items_view(before).push(sent@.last()@));
                }
            },
            None => {},
        }
        i = i + 1;
    }
    proof {
        assert(mv.take(messages@.len() as int) =~= mv);
        assert(items_view(sent@) == sent_messages(mv));
    }
    let mut pairs: Vec<(String, JsonValue)> = Vec::new();
    pairs.push((owned("model"), JsonValue::text(model)));
    pairs.push((owned("messages"), JsonValue::Array(sent)));
    pairs.push((owned("temperature"), JsonValue::Float(owned(TEMPERATURE))));
    match tools {
        Some(ts) => {
            let mut listed: Vec<JsonValue> = Vec::new();
            let mut k: usize = 0;
            while k < ts.len()
                invariant
                    k <= ts@.len(),
                    listed@.len() == k,
                    forall|j: int| 0 <= j < k ==> #[trigger] listed@[j]@ == tool_json(tool_view(ts@[j])),
                decreases ts@.len() - k,
            {
                listed.push(encode_tool(&ts[k]));
                k = k + 1;
            }
            proof {
                lemma_items_view(listed@);
                assert(items_view(listed@) =~= ts@.map_values(|t: Tool| tool_json(tool_view(t))));
            }
            pairs.push((owned("tools"), JsonValue::Array(listed)));
            pairs.push((owned("tool_choice"), JsonValue::text("auto")));
            proof {
                lemma_entries_view(pairs@);
                assert(entries_view(pairs@) =~= seq![
                    ("model"@, JsonV::Str(model@)),
                    ("messages"@, JsonV::Array(sent_messages(mv))),
                    ("temperature"@, JsonV::Float(TEMPERATURE@)),
                ] + seq![
                    ("tools"@, JsonV::Array(ts@.map_values(|t: Tool| tool_json(tool_view(t))))),
                    ("tool_choice"@, JsonV::Str("auto"@)),
                ]);
            }
        },
        None => {
            proof {
                lemma_entries_view(pairs@);
                assert(entries_view(pairs@) =~= seq![
                    ("model"@, JsonV::Str(model@)),
                    ("messages"@, JsonV::Array(sent_messages(mv))),
                    ("temperature"@, JsonV::Float(TEMPERATURE@)),
                ]);
            }
        },
    }
    object_from_pairs(pairs)
}

/// The `Authorization` value for an API key: none without a key, the key
/// itself when it already starts with `Bearer `, else `Bearer <key>`.
pub fn authorization_value(api_key: &str) -> (r: Option<String>)
    ensures
        match r {
            None => api_key@.len() == 0,
            Some(v) => api_key@.len() > 0 && v@ == if has_prefix(api_key@, "Bearer "@) {
                api_key@
            } else {
                "Bearer "@ + api_key@
            },
        },
{
    if api_key.unicode_len() == 0 {
        return None;
    }
    if starts_with(api_key, "Bearer ") {
        Some(owned(api_key))
    } else {
        Some(concat2("Bearer ", api_key))
    }
}

/// The error for a reply with a failure status.
pub fn api_status_error(status: u16, body: &str) -> (r: Error)
    ensures
        r matches Error::Provider(m) && m@ == "API error (status "@ + int_text(status as int) + "): "@ + body@,
{
    let code = i64_text(status as i64);
    Error::Provider(concat4("API error (status ", code.as_str(), "): ", body))
}

/// The reply's message: that of its first choice.
pub fn first_choice(choices: Vec<Message>) -> (r: Result<Message, Error>)
    ensures
        choices@.len() == 0 ==> (r matches Err(Error::Provider(m)) && m@ == "API returned empty choices"@),
        choices@.len() > 0 ==> r == Ok::<Message, Error>(choices@[0]),
{
    let mut choices = choices;
    if choices.len() == 0 {
        return Err(Error::Provider(owned("API returned empty choices")));
    }
    Ok(choices.remove(0))
}

} // verus!
