//! The vendor's request shape, as plain values.
use vstd::prelude::*;

verus! {

/// The author of a vendor message.
#[derive(PartialEq, Eq, Structural, Clone, Copy, Debug)]
pub enum Role {
    User,
    Assistant,
}

/// A typed content block of a vendor message.
#[derive(Debug, Clone, PartialEq, Eq)]
pub enum ContentBlock {
    Text(String),
    /// A tool call made by the model; `input` is the call's argument text.
    ToolUse { id: String, name: String, input: Option<String> },
    /// The answer to the tool call `tool_use_id`.
    ToolResult { tool_use_id: String, content: String },
}

/// One message of a vendor request.
#[derive(Debug, Clone, PartialEq, Eq)]
pub struct VendorMessage {
    pub role: Role,
    pub content: Vec<ContentBlock>,
}

/// One parameter in a tool's input schema; its schema type is always "string".
#[derive(Debug, Clone, PartialEq, Eq)]
pub struct SchemaProperty {
    pub name: String,
    pub description: String,
}

/// A vendor tool descriptor: the input schema is an object whose properties
/// are `properties`, and `required` lists the names of the required ones.
#[derive(Debug, Clone, PartialEq, Eq)]
pub struct ToolDescriptor {
    pub name: String,
    pub description: String,
    pub properties: Vec<SchemaProperty>,
    pub required: Vec<String>,
}

/// How the vendor chooses among the tools offered.
#[derive(PartialEq, Eq, Structural, Clone, Copy, Debug)]
pub enum ToolChoice {
    /// The model decides whether to call a tool.
    Auto,
}

/// A complete vendor request.
#[derive(Debug, Clone, PartialEq, Eq)]
pub struct VendorRequest {
    pub model: String,
    pub messages: Vec<VendorMessage>,
    /// Absent when no tool is offered.
    pub tools: Option<Vec<ToolDescriptor>>,
    pub tool_choice: Option<ToolChoice>,
}

} // verus!
