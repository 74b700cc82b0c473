//! Language-model provider vocabulary: messages, tool calls and tool schemas.
use vstd::prelude::*;
use crate::json::{JsonValue, JsonV};
use crate::ticket::{opt_text, clone_opt_text};

verus! {

/// Which wire protocol a provider speaks.
#[derive(Clone, Copy, Debug, PartialEq, Eq, Structural)]
pub enum ProviderKind {
    OpenAiCompatible,
    Gemini,
}

/// Request budgets of a provider.
#[derive(Clone, Copy, Debug, PartialEq, Eq, Structural)]
pub struct RateLimitConfig {
    pub requests_per_second: u32,
    pub requests_per_minute: u32,
    pub tokens_per_minute: u32,
}

/// Everything needed to call a provider.
#[derive(Debug)]
pub struct ProviderConfig {
    pub name: String,
    pub kind: ProviderKind,
    pub endpoint: String,
    pub api_key: String,
    pub model_name: String,
    pub rate_limit: Option<RateLimitConfig>,
}

/// The author of a message.
#[derive(Clone, Copy, Debug, PartialEq, Eq, Structural)]
pub enum Role {
    System,
    User,
    Assistant,
    Tool,
}

/// The function part of a tool call: a name and its arguments as JSON text.
#[derive(Debug)]
pub struct ToolFunctionCall {
    pub name: String,
    pub arguments: String,
}

/// A tool call requested by the model.
#[derive(Debug)]
pub struct ToolCall {
    pub id: String,
    pub call_type: String,
    pub function: ToolFunctionCall,
}

/// One message of a conversation.
#[derive(Debug)]
pub struct Message {
    pub role: Role,
    pub content: Option<String>,
    pub tool_calls: Option<Vec<ToolCall>>,
    pub tool_call_id: Option<String>,
    pub name: Option<String>,
}

/// A tool's declared interface: its name, description and JSON-schema parameters.
#[derive(Debug)]
pub struct ToolFunction {
    pub name: String,
    pub description: String,
    pub parameters: JsonValue,
}

/// A tool offered to the model.
#[derive(Debug)]
pub struct Tool {
    pub tool_type: String,
    pub function: ToolFunction,
}

impl ToolCall {
    /// A copy with the same content.
    pub fn copy(&self) -> (r: ToolCall)
        ensures
            r.id@ == self.id@,
            r.call_type@ == self.call_type@,
            r.function.name@ == self.function.name@,
            r.function.arguments@ == self.function.arguments@,
    {
        ToolCall {
            id: self.id.clone(),
            call_type: self.call_type.clone(),
            function: ToolFunctionCall {
                name: self.function.name.clone(),
                arguments: self.function.arguments.clone(),
            },
        }
    }
}

/// The content of a tool call: (id, type, function name, arguments).
pub open spec fn call_view(c: ToolCall) -> (Seq<char>, Seq<char>, Seq<char>, Seq<char>) {
    (c.id@, c.call_type@, c.function.name@, c.function.arguments@)
}

/// The content of a message's tool calls.
pub open spec fn calls_view(o: Option<Vec<ToolCall>>) -> Option<Seq<(Seq<char>, Seq<char>, Seq<char>, Seq<char>)>> {
    match o {
        Some(v) => Some(v@.map_values(|c: ToolCall| call_view(c))),
        None => None,
    }
}

/// The content of a message.
pub struct MessageV {
    pub role: Role,
    pub content: Option<Seq<char>>,
    pub tool_calls: Option<Seq<(Seq<char>, Seq<char>, Seq<char>, Seq<char>)>>,
    pub tool_call_id: Option<Seq<char>>,
    pub name: Option<Seq<char>>,
}

impl View for Message {
    type V = MessageV;

    open spec fn view(&self) -> MessageV {
        MessageV {
            role: self.role,
            content: opt_text(self.content),
            tool_calls: calls_view(self.tool_calls),
            tool_call_id: opt_text(self.tool_call_id),
            name: opt_text(self.name),
        }
    }
}

/// A copy of a list of tool calls.
pub fn copy_calls(v: &Vec<ToolCall>) -> (r: Vec<ToolCall>)
    ensures
        r@.map_values(|c: ToolCall| call_view(c)) == v@.map_values(|c: ToolCall| call_view(c)),
{
    let mut out: Vec<ToolCall> = Vec::new();
    let mut i: usize = 0;
    while i < v.len()
        invariant
            i <= v.len(),
            out@.len() == i,
            forall|j: int| 0 <= j < i ==> call_view(#[trigger] out@[j]) == call_view(v@[j]),
        decreases v.len() - i,
    {
        out.push(v[i].copy());
        i = i + 1;
    }
    assert(out@.map_values(|c: ToolCall| call_view(c)) =~= v@.map_values(|c: ToolCall| call_view(c)));
    out
}

impl Message {
    /// A copy with the same content.
    pub fn copy(&self) -> (r: Message)
        ensures
            r@ == self@,
    {
        Message {
            role: self.role,
            content: clone_opt_text(&self.content),
            tool_calls: match &self.tool_calls {
                Some(v) => Some(copy_calls(v)),
                None => None,
            },
            tool_call_id: clone_opt_text(&self.tool_call_id),
            name: clone_opt_text(&self.name),
        }
    }

    /// A message with only a role and a text.
    pub fn text(role: Role, content: String) -> (r: Message)
        ensures
            r@ == (MessageV {
                role,
                content: Some(content@),
                tool_calls: None,
                tool_call_id: None,
                name: None,
            }),
    {
        Message { role, content: Some(content), tool_calls: None, tool_call_id: None, name: None }
    }
}

} // verus!
