//! Translation of a conversation and its tool specifications into a vendor
//! request.
use vstd::prelude::*;
use vstd::string::*;
use crate::model::{ChatMessage, ParamSpec, ToolCall, ToolSpec};
use crate::vendor::{
    ContentBlock, Role, SchemaProperty, ToolChoice, ToolDescriptor, VendorMessage, VendorRequest,
};

verus! {

/// The output text handed to the vendor for a tool that produced none.
pub open spec fn tool_output_text(output: Option<String>) -> Seq<char> {
    match output {
        Some(s) => s@,
        None => "Success"@,
    }
}

/// The content block that carries a tool invocation.
pub open spec fn tool_use_block(c: ToolCall) -> ContentBlock {
    ContentBlock::ToolUse { id: c.id, name: c.name, input: c.args }
}

/// The content of an assistant message: its text first, if any, then one
/// tool-use block per invocation, in order.
pub open spec fn assistant_blocks(text: Option<String>, calls: Option<Vec<ToolCall>>) -> Seq<
    ContentBlock,
> {
    let head = match text {
        Some(t) => seq![ContentBlock::Text(t)],
        None => Seq::empty(),
    };
    let tail = match calls {
        Some(cs) => cs@.map_values(|c: ToolCall| tool_use_block(c)),
        None => Seq::empty(),
    };
    head + tail
}

/// `r` is the vendor form of the conversation message `m`.
pub open spec fn translates_message(m: ChatMessage, r: VendorMessage) -> bool {
    match m {
        ChatMessage::System(s) => r.role == Role::User && r.content@ == seq![ContentBlock::Text(s)],
        ChatMessage::User(s) => r.role == Role::User && r.content@ == seq![ContentBlock::Text(s)],
        ChatMessage::Summary(s) => r.role == Role::User && r.content@ == seq![ContentBlock::Text(s)],
        ChatMessage::Assistant(text, calls) => r.role == Role::Assistant && r.content@
            == assistant_blocks(text, calls),
        ChatMessage::ToolOutput(call, output) => {
            &&& r.role == Role::User
            &&& r.content@.len() == 1
            &&& r.content@[0] matches ContentBlock::ToolResult { tool_use_id, content }
            &&& tool_use_id == call.id
            &&& content@ == tool_output_text(output)
        },
    }
}

fn tool_use(c: &ToolCall) -> (r: ContentBlock)
    ensures
        r == tool_use_block(*c),
{
    let args = match &c.args {
        Some(a) => Some(a.clone()),
        None => None,
    };
    ContentBlock::ToolUse { id: c.id.clone(), name: c.name.clone(), input: args }
}

fn text_message(s: &String) -> (r: VendorMessage)
    ensures
        r.role == Role::User,
        r.content@ == seq![ContentBlock::Text(*s)],
{
    VendorMessage { role: Role::User, content: vec![ContentBlock::Text(s.clone())] }
}

/// Converts one conversation message to the vendor's shape.
pub fn message_to_anthropic(message: &ChatMessage) -> (r: VendorMessage)
    ensures
        translates_message(*message, r),
{
    match message {
        ChatMessage::ToolOutput(call, output) => {
            let content = match output {
                Some(o) => o.clone(),
                None => String::from_str("Success"),
            };
            let block = ContentBlock::ToolResult { tool_use_id: call.id.clone(), content };
            VendorMessage { role: Role::User, content: vec![block] }
        },
        ChatMessage::Summary(s) => text_message(s),
        ChatMessage::System(s) => text_message(s),
        ChatMessage::User(s) => text_message(s),
        ChatMessage::Assistant(text, calls) => {
            let mut blocks: Vec<ContentBlock> = Vec::new();
            if let Some(t) = text {
                blocks.push(ContentBlock::Text(t.clone()));
            }
            let ghost head = blocks@;
            if let Some(cs) = calls {
                let mut i: usize = 0;
                while i < cs.len()
                    invariant
                        i <= cs@.len(),
                        blocks@ == head + cs@.subrange(0, i as int).map_values(
                            |c: ToolCall| tool_use_block(c),
                        ),
                    decreases cs.len() - i,
                {
                    blocks.push(tool_use(&cs[i]));
                    proof {
                        assert(cs@.subrange(0, i + 1) =~= cs@.subrange(0, i as int).push(cs@[i as int]));
                    }
                    i += 1;
                }
                assert(cs@.subrange(0, cs@.len() as int) =~= cs@);
            }
            assert(blocks@ =~= assistant_blocks(*text, *calls));
            VendorMessage { role: Role::Assistant, content: blocks }
        },
    }
}

/// Why a conversation or its tools could not be put in the vendor's shape.
#[derive(Debug, Clone, PartialEq, Eq)]
pub enum TranslationError {
    /// Two parameters of the tool `tool` share a name.
    DuplicateParameter { tool: String },
    /// Two tools share the name `tool`.
    DuplicateTool { tool: String },
}

/// No two of `names` are equal.
pub open spec fn distinct(names: Seq<Seq<char>>) -> bool {
    forall|i: int, j: int| 0 <= i < j < names.len() ==> names[i] != names[j]
}

pub open spec fn param_names(ps: Seq<ParamSpec>) -> Seq<Seq<char>> {
    ps.map_values(|p: ParamSpec| p.name@)
}

/// The names of the required parameters, in declaration order.
pub open spec fn required_names(ps: Seq<ParamSpec>) -> Seq<String> {
    ps.filter(|p: ParamSpec| p.required).map_values(|p: ParamSpec| p.name)
}

/// The schema entry of a parameter.
pub open spec fn schema_property(p: ParamSpec) -> SchemaProperty {
    SchemaProperty { name: p.name, description: p.description }
}

/// `r` is the vendor descriptor of the tool `spec`.
pub open spec fn describes_tool(spec: ToolSpec, r: ToolDescriptor) -> bool {
    &&& r.name == spec.name
    &&& r.description == spec.description
    &&& r.properties@ == spec.parameters@.map_values(|p: ParamSpec| schema_property(p))
    &&& r.required@ == required_names(spec.parameters@)
}

/// Tells whether the parameter names of `ps` are pairwise different.
pub fn param_names_distinct(ps: &Vec<ParamSpec>) -> (r: bool)
    ensures
        r == distinct(param_names(ps@)),
{
    let mut i: usize = 0;
    while i < ps.len()
        invariant
            i <= ps@.len(),
            forall|a: int, b: int| 0 <= a < i && a < b < ps@.len() ==> ps@[a].name@ != ps@[b].name@,
        decreases ps.len() - i,
    {
        let mut j: usize = i + 1;
        while j < ps.len()
            invariant
                i < j <= ps@.len(),
                i < ps@.len(),
                forall|b: int| i < b < j ==> ps@[i as int].name@ != ps@[b].name@,
            decreases ps.len() - j,
        {
            if ps[i].name == ps[j].name {
                assert(param_names(ps@)[i as int] == param_names(ps@)[j as int]);
                return false;
            }
            j += 1;
        }
        i += 1;
    }
    true
}

/// Converts a tool specification to the vendor's tool descriptor; fails when
/// two of its parameters share a name, since the schema's properties are
/// keyed by name.
pub fn tools_to_anthropic(spec: &ToolSpec) -> (r: Result<ToolDescriptor, TranslationError>)
    ensures
        r is Ok <==> distinct(param_names(spec.parameters@)),
        r matches Ok(d) ==> describes_tool(*spec, d),
        r matches Err(e) ==> e == (TranslationError::DuplicateParameter { tool: spec.name }),
{
    if !param_names_distinct(&spec.parameters) {
        return Err(TranslationError::DuplicateParameter { tool: spec.name.clone() });
    }
    let ps = &spec.parameters;
    let mut properties: Vec<SchemaProperty> = Vec::new();
    let mut required: Vec<String> = Vec::new();
    let mut i: usize = 0;
    while i < ps.len()
        invariant
            i <= ps@.len(),
            properties@ == ps@.subrange(0, i as int).map_values(|p: ParamSpec| schema_property(p)),
            required@ == required_names(ps@.subrange(0, i as int)),
        decreases ps.len() - i,
    {
        let p = &ps[i];
        properties.push(SchemaProperty { name: p.name.clone(), description: p.description.clone() });
        if p.required {
            required.push(p.name.clone());
        }
        proof {
            let pre = ps@.subrange(0, i as int);
            assert(ps@.subrange(0, i + 1) =~= pre.push(ps@[i as int]));
            pre.lemma_filter_push(ps@[i as int], |p: ParamSpec| p.required);
            assert(required@ =~= required_names(ps@.subrange(0, i + 1)));
        }
        i += 1;
    }
    assert(ps@.subrange(0, ps@.len() as int) =~= ps@);
    assert(properties@ =~= ps@.map_values(|p: ParamSpec| schema_property(p)));
    Ok(ToolDescriptor { name: spec.name.clone(), description: spec.description.clone(), properties, required })
}

/// The required list of a tool descriptor is assembled parameter by
/// parameter: a parameter contributes its name exactly when it is flagged
/// required, and the contributions of consecutive parameters follow one
/// another, so declaration order is kept.
pub proof fn lemma_required_follows_declaration(a: Seq<ParamSpec>, b: Seq<ParamSpec>, p: ParamSpec)
    ensures
        required_names(a + b) == required_names(a) + required_names(b),
        required_names(seq![p]) == (if p.required { seq![p.name] } else { Seq::<String>::empty() }),
{
    let pred = |q: ParamSpec| q.required;
    Seq::filter_distributes_over_add(a, b, pred);
    assert(required_names(a + b) =~= required_names(a) + required_names(b));
    Seq::<ParamSpec>::empty().lemma_filter_push(p, pred);
    assert(seq![p] =~= Seq::<ParamSpec>::empty().push(p));
    assert(Seq::<ParamSpec>::empty().filter(pred) =~= Seq::<ParamSpec>::empty());
    assert(required_names(seq![p]) =~= (if p.required { seq![p.name] } else { Seq::<String>::empty() }));
}

pub open spec fn tool_names(tools: Seq<ToolSpec>) -> Seq<Seq<char>> {
    tools.map_values(|t: ToolSpec| t.name@)
}

/// Every tool can be described to the vendor: tool names are pairwise
/// different, and so are the parameter names within each tool.
pub open spec fn tools_translatable(tools: Seq<ToolSpec>) -> bool {
    &&& distinct(tool_names(tools))
    &&& forall|i: int| 0 <= i < tools.len() ==> distinct(param_names(#[trigger] tools[i].parameters@))
}

/// `req` is the vendor request for `model`, `messages` and `tools`.
pub open spec fn builds_request(
    model: String,
    messages: Seq<ChatMessage>,
    tools: Seq<ToolSpec>,
    req: VendorRequest,
) -> bool {
    &&& req.model == model
    &&& req.messages@.len() == messages.len()
    &&& forall|i: int|
        0 <= i < messages.len() ==> translates_message(#[trigger] messages[i], req.messages@[i])
    &&& if tools.len() == 0 {
        req.tools is None && req.tool_choice is None
    } else {
        &&& req.tool_choice == Some(ToolChoice::Auto)
        &&& req.tools is Some
        &&& req.tools->0@.len() == tools.len()
        &&& forall|i: int|
            0 <= i < tools.len() ==> describes_tool(#[trigger] tools[i], req.tools->0@[i])
    }
}

/// The error `e` names a tool that makes `tools` untranslatable: a repeated
/// tool name, or else a tool with a repeated parameter name.
pub open spec fn explains_failure(tools: Seq<ToolSpec>, e: TranslationError) -> bool {
    match e {
        TranslationError::DuplicateTool { tool } => exists|i: int, j: int|
            0 <= i < j < tools.len() && #[trigger] tools[i].name@ == #[trigger] tools[j].name@
                && tool == tools[j].name,
        TranslationError::DuplicateParameter { tool } => distinct(tool_names(tools)) && exists|i: int|
            0 <= i < tools.len() && !distinct(param_names(#[trigger] tools[i].parameters@)) && tool
                == tools[i].name,
    }
}

/// Finds a tool whose name an earlier tool already has.
fn repeated_tool_name(tools: &Vec<ToolSpec>) -> (r: Option<usize>)
    ensures
        r is None <==> distinct(tool_names(tools@)),
        r matches Some(j) ==> j < tools@.len() && exists|i: int|
            0 <= i < j && #[trigger] tools@[i].name@ == tools@[j as int].name@,
{
    let mut j: usize = 0;
    while j < tools.len()
        invariant
            j <= tools@.len(),
            forall|a: int, b: int| 0 <= a < b < j ==> tools@[a].name@ != tools@[b].name@,
        decreases tools.len() - j,
    {
        let mut i: usize = 0;
        while i < j
            invariant
                i <= j < tools@.len(),
                forall|a: int| 0 <= a < i ==> tools@[a].name@ != tools@[j as int].name@,
            decreases j - i,
        {
            if tools[i].name == tools[j].name {
                assert(tool_names(tools@)[i as int] == tool_names(tools@)[j as int]);
                return Some(j);
            }
            i += 1;
        }
        j += 1;
    }
    proof {
        assert forall|a: int, b: int| 0 <= a < b < tool_names(tools@).len() implies tool_names(
            tools@,
        )[a] != tool_names(tools@)[b] by {
            assert(tools@[a].name@ != tools@[b].name@);
        }
    }
    None
}

/// Builds the vendor request for `model` from a conversation and the tools
/// offered. The messages keep their order; tools, and the automatic tool
/// choice, are set only when at least one tool is offered. Nothing is built
/// when a tool cannot be described.
pub fn translate_request(model: &String, messages: &Vec<ChatMessage>, tools: &Vec<ToolSpec>) -> (r:
    Result<VendorRequest, TranslationError>)
    ensures
        r is Ok <==> tools_translatable(tools@),
        r matches Ok(req) ==> builds_request(*model, messages@, tools@, req),
        r matches Err(e) ==> (e is DuplicateTool <==> !distinct(tool_names(tools@))),
        r matches Err(e) ==> explains_failure(tools@, e),
{
    let mut vendor_messages: Vec<VendorMessage> = Vec::new();
    let mut k: usize = 0;
    while k < messages.len()
        invariant
            k <= messages@.len(),
            vendor_messages@.len() == k,
            forall|i: int| 0 <= i < k ==> translates_message(#[trigger] messages@[i], vendor_messages@[i]),
        decreases messages.len() - k,
    {
        vendor_messages.push(message_to_anthropic(&messages[k]));
        k += 1;
    }
    if tools.len() == 0 {
        return Ok(VendorRequest { model: model.clone(), messages: vendor_messages, tools: None, tool_choice: None });
    }
    match repeated_tool_name(tools) {
        Some(j) => {
            assert(!distinct(tool_names(tools@))) by {
                let i = choose|i: int| 0 <= i < j && #[trigger] tools@[i].name@ == tools@[j as int].name@;
                assert(tool_names(tools@)[i] == tool_names(tools@)[j as int]);
            }
            return Err(TranslationError::DuplicateTool { tool: tools[j].name.clone() });
        },
        None => {},
    }
    let mut descriptors: Vec<ToolDescriptor> = Vec::new();
    let mut t: usize = 0;
    while t < tools.len()
        invariant
            t <= tools@.len(),
            distinct(tool_names(tools@)),
            descriptors@.len() == t,
            forall|i: int| 0 <= i < t ==> distinct(param_names(#[trigger] tools@[i].parameters@)),
            forall|i: int| 0 <= i < t ==> describes_tool(#[trigger] tools@[i], descriptors@[i]),
        decreases tools.len() - t,
    {
        match tools_to_anthropic(&tools[t]) {
            Ok(d) => descriptors.push(d),
            Err(e) => {
                assert(!tools_translatable(tools@));
                return Err(e);
            },
        }
        t += 1;
    }
    Ok(VendorRequest {
        model: model.clone(),
        messages: vendor_messages,
        tools: Some(descriptors),
        tool_choice: Some(ToolChoice::Auto),
    })
}

/// An assistant message with text and tool calls becomes one text block
/// followed by one tool-use block per call, in the calls' order, each with
/// the call's identifier, name and arguments unchanged.
pub proof fn lemma_assistant_content(text: String, calls: Vec<ToolCall>, r: VendorMessage)
    requires
        translates_message(ChatMessage::Assistant(Some(text), Some(calls)), r),
    ensures
        r.role == Role::Assistant,
        r.content@.len() == 1 + calls@.len(),
        r.content@[0] == ContentBlock::Text(text),
        forall|i: int|
            0 <= i < calls@.len() ==> r.content@[i + 1] == (ContentBlock::ToolUse {
                id: (#[trigger] calls@[i]).id,
                name: calls@[i].name,
                input: calls@[i].args,
            }),
{
    assert forall|i: int| 0 <= i < calls@.len() implies r.content@[i + 1] == (ContentBlock::ToolUse {
        id: (#[trigger] calls@[i]).id,
        name: calls@[i].name,
        input: calls@[i].args,
    }) by {
        assert(r.content@[i + 1] == calls@.map_values(|c: ToolCall| tool_use_block(c))[i]);
    }
}

/// A tool result without output is sent with the text "Success".
pub proof fn lemma_empty_output_placeholder(call: ToolCall, r: VendorMessage)
    requires
        translates_message(ChatMessage::ToolOutput(call, None), r),
    ensures
        r.content@.len() == 1,
        r.content@[0] matches ContentBlock::ToolResult { tool_use_id, content } && tool_use_id
            == call.id && content@ == "Success"@,
{
}

/// Without tools the request can always be built, and it carries neither a
/// tools field nor a tool-choice directive.
pub proof fn lemma_no_tools(model: String, messages: Seq<ChatMessage>, req: VendorRequest)
    requires
        builds_request(model, messages, Seq::empty(), req),
    ensures
        tools_translatable(Seq::empty()),
        req.tools is None,
        req.tool_choice is None,
{
}

} // verus!
