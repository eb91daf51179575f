//! Translation of the vendor's reply into a completion response.
use vstd::prelude::*;
use crate::model::{ChatCompletionResponse, ToolCall};
use crate::vendor::ContentBlock;

verus! {

#[verifier::external_type_specification]
#[verifier::external_body]
pub struct ExValue(serde_json::Value);

/// A content block of the vendor's reply, as the vendor sent it.
#[derive(Debug)]
pub enum ResponseBlock {
    Text(String),
    /// A tool call; `input` is the structured argument value.
    ToolUse { id: String, name: String, input: serde_json::Value },
    ToolResult { tool_use_id: String, content: Option<String> },
}

/// The first text among `bs`.
pub open spec fn first_text(bs: Seq<ContentBlock>) -> Option<String>
    decreases bs.len(),
{
    if bs.len() == 0 {
        None
    } else {
        match first_text(bs.drop_last()) {
            Some(t) => Some(t),
            None => match bs.last() {
                ContentBlock::Text(t) => Some(t),
                _ => None,
            },
        }
    }
}

/// The tool invocations among `bs`, in order.
pub open spec fn tool_calls_of(bs: Seq<ContentBlock>) -> Seq<ToolCall>
    decreases bs.len(),
{
    if bs.len() == 0 {
        Seq::empty()
    } else {
        let rest = tool_calls_of(bs.drop_last());
        match bs.last() {
            ContentBlock::ToolUse { id, name, input } => rest.push(ToolCall { id, name, args: input }),
            _ => rest,
        }
    }
}

/// `r` is the completion response for the reply content `bs`: its message is
/// the first text, and its tool calls are all invocations in order, absent
/// when there are none.
pub open spec fn completes(bs: Seq<ContentBlock>, r: ChatCompletionResponse) -> bool {
    &&& r.message == first_text(bs)
    &&& if tool_calls_of(bs).len() == 0 {
        r.tool_calls is None
    } else {
        r.tool_calls is Some && r.tool_calls->0@ == tool_calls_of(bs)
    }
}

/// `c` is `b` with a tool call's structured input rendered as text.
pub open spec fn renders(b: ResponseBlock, c: ContentBlock) -> bool {
    match b {
        ResponseBlock::Text(t) => c == ContentBlock::Text(t),
        ResponseBlock::ToolUse { id, name, .. } => c matches ContentBlock::ToolUse {
            id: cid,
            name: cname,
            input,
        } && cid == id && cname == name && input is Some,
        ResponseBlock::ToolResult { tool_use_id, content } => c matches ContentBlock::ToolResult {
            tool_use_id: cid,
            content: ctext,
        } && cid == tool_use_id && ctext@ == match content {
            Some(s) => s@,
            None => Seq::<char>::empty(),
        },
    }
}

/// Relies on serde_json's `Display` for `Value` (via `to_string`): the
/// value's compact JSON text.
#[verifier::external_body]
fn json_text(v: &serde_json::Value) -> (r: String) {
    v.to_string()
}

fn render_block(b: &ResponseBlock) -> (r: ContentBlock)
    ensures
        renders(*b, r),
{
    match b {
        ResponseBlock::Text(t) => ContentBlock::Text(t.clone()),
        ResponseBlock::ToolUse { id, name, input } => ContentBlock::ToolUse {
            id: id.clone(),
            name: name.clone(),
            input: Some(json_text(input)),
        },
        ResponseBlock::ToolResult { tool_use_id, content } => {
            let text = match content {
                Some(s) => s.clone(),
                None => String::new(),
            };
            ContentBlock::ToolResult { tool_use_id: tool_use_id.clone(), content: text }
        },
    }
}

/// Collects the reply content into a completion response in one pass: the
/// first text block is the message, and every tool-use block becomes a tool
/// call.
pub fn collect_response(blocks: &Vec<ContentBlock>) -> (r: ChatCompletionResponse)
    ensures
        completes(blocks@, r),
{
    let mut message: Option<String> = None;
    let mut calls: Vec<ToolCall> = Vec::new();
    let mut i: usize = 0;
    while i < blocks.len()
        invariant
            i <= blocks@.len(),
            message == first_text(blocks@.subrange(0, i as int)),
            calls@ == tool_calls_of(blocks@.subrange(0, i as int)),
        decreases blocks.len() - i,
    {
        proof {
            assert(blocks@.subrange(0, i + 1).drop_last() =~= blocks@.subrange(0, i as int));
        }
        match &blocks[i] {
            ContentBlock::Text(t) => {
                if message.is_none() {
                    message = Some(t.clone());
                }
            },
            ContentBlock::ToolUse { id, name, input } => {
                let args = match input {
                    Some(a) => Some(a.clone()),
                    None => None,
                };
                calls.push(ToolCall { id: id.clone(), name: name.clone(), args });
            },
            ContentBlock::ToolResult { .. } => {},
        }
        i += 1;
    }
    assert(blocks@.subrange(0, blocks@.len() as int) =~= blocks@);
    let tool_calls = if calls.len() == 0 {
        None
    } else {
        Some(calls)
    };
    ChatCompletionResponse { message, tool_calls }
}

/// Translates the vendor's reply content: each tool call's input is rendered
/// as JSON text, then the content is collected as `collect_response` does.
pub fn translate_response(content: &Vec<ResponseBlock>) -> (r: ChatCompletionResponse)
    ensures
        exists|rendered: Seq<ContentBlock>|
            {
                &&& rendered.len() == content@.len()
                &&& forall|i: int| 0 <= i < content@.len() ==> renders(#[trigger] content@[i], rendered[i])
                &&& completes(rendered, r)
            },
{
    let mut rendered: Vec<ContentBlock> = Vec::new();
    let mut i: usize = 0;
    while i < content.len()
        invariant
            i <= content@.len(),
            rendered@.len() == i,
            forall|k: int| 0 <= k < i ==> renders(#[trigger] content@[k], rendered@[k]),
        decreases content.len() - i,
    {
        rendered.push(render_block(&content[i]));
        i += 1;
    }
    let r = collect_response(&rendered);
    assert(completes(rendered@, r));
    r
}

/// A reply made of a single text block yields that text and no tool calls.
pub proof fn lemma_single_text_reply(text: String, r: ChatCompletionResponse)
    requires
        completes(seq![ContentBlock::Text(text)], r),
    ensures
        r.message == Some(text),
        r.tool_calls is None,
{
    let bs = seq![ContentBlock::Text(text)];
    let empty = Seq::<ContentBlock>::empty();
    assert(bs.drop_last() =~= empty);
    assert(bs.last() == ContentBlock::Text(text));
    assert(first_text(empty) is None);
    assert(tool_calls_of(empty) =~= Seq::<ToolCall>::empty());
    assert(first_text(bs) == Some(text));
    assert(tool_calls_of(bs) =~= Seq::<ToolCall>::empty());
}

/// A reply made of a text block and then one tool-use block yields that text
/// and exactly that one tool call, its identifier, name and argument text
/// kept.
pub proof fn lemma_text_and_tool_reply(
    text: String,
    id: String,
    name: String,
    args: String,
    r: ChatCompletionResponse,
)
    requires
        completes(
            seq![ContentBlock::Text(text), ContentBlock::ToolUse { id, name, input: Some(args) }],
            r,
        ),
    ensures
        r.message == Some(text),
        r.tool_calls is Some,
        r.tool_calls->0@ == seq![ToolCall { id, name, args: Some(args) }],
{
    let first = seq![ContentBlock::Text(text)];
    let bs = seq![ContentBlock::Text(text), ContentBlock::ToolUse { id, name, input: Some(args) }];
    let empty = Seq::<ContentBlock>::empty();
    assert(first.drop_last() =~= empty);
    assert(first_text(empty) is None);
    assert(tool_calls_of(empty) =~= Seq::<ToolCall>::empty());
    assert(first.last() == ContentBlock::Text(text));
    assert(first_text(first) == Some(text));
    assert(tool_calls_of(first) =~= Seq::<ToolCall>::empty());
    assert(bs.drop_last() =~= first);
    assert(bs.last() == ContentBlock::ToolUse { id, name, input: Some(args) });
    assert(first_text(bs) == Some(text));
    assert(tool_calls_of(bs) =~= seq![ToolCall { id, name, args: Some(args) }]);
}

} // verus!
