//! The provider-neutral conversation model.
use vstd::prelude::*;

verus! {

/// A tool invocation: the vendor-assigned identifier, the tool's name and
/// its arguments as serialized text.
#[derive(Debug, Clone, PartialEq, Eq)]
pub struct ToolCall {
    pub id: String,
    pub name: String,
    pub args: Option<String>,
}

/// One message of a conversation.
#[derive(Debug, Clone, PartialEq, Eq)]
pub enum ChatMessage {
    System(String),
    User(String),
    /// Prior model output: optional text and optional tool invocations.
    Assistant(Option<String>, Option<Vec<ToolCall>>),
    /// The outcome of a tool invocation: the call it answers and the
    /// textual output, if the tool produced any.
    ToolOutput(ToolCall, Option<String>),
    Summary(String),
}

/// One parameter of a tool; every parameter is passed as a string.
#[derive(Debug, Clone, PartialEq, Eq)]
pub struct ParamSpec {
    pub name: String,
    pub description: String,
    pub required: bool,
}

/// A tool that the model may call.
#[derive(Debug, Clone, PartialEq, Eq)]
pub struct ToolSpec {
    pub name: String,
    pub description: String,
    pub parameters: Vec<ParamSpec>,
}

/// The normalized result of a completion.
#[derive(Debug, Clone, PartialEq, Eq)]
pub struct ChatCompletionResponse {
    /// The first text block of the reply.
    pub message: Option<String>,
    /// Every tool invocation of the reply, in order; `None` when there is none.
    pub tool_calls: Option<Vec<ToolCall>>,
}

impl ToolCall {
    pub fn new(id: String, name: String, args: Option<String>) -> (r: ToolCall)
        ensures
            r.id == id,
            r.name == name,
            r.args == args,
    {
        ToolCall { id, name, args }
    }
}

} // verus!
