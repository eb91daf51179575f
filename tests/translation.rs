use anthropic_completion::model::{ChatMessage, ParamSpec, ToolCall, ToolSpec};
use anthropic_completion::request::{
    message_to_anthropic, param_names_distinct, tools_to_anthropic, translate_request,
    TranslationError,
};
use anthropic_completion::response::{collect_response, translate_response, ResponseBlock};
use anthropic_completion::vendor::{ContentBlock, Role, SchemaProperty, ToolChoice};

fn s(text: &str) -> String {
    text.to_string()
}

fn param(name: &str, description: &str, required: bool) -> ParamSpec {
    ParamSpec { name: s(name), description: s(description), required }
}

fn weather_tool() -> ToolSpec {
    ToolSpec {
        name: s("get_weather"),
        description: s("Gets the weather"),
        parameters: vec![param("location", "Location", true)],
    }
}

fn object(entries: &[(&str, &str)]) -> serde_json::Value {
    let mut map = serde_json::Map::new();
    for (k, v) in entries {
        map.insert(s(k), serde_json::Value::String(s(v)));
    }
    serde_json::Value::Object(map)
}

#[test]
fn test_complete_without_tools() {
    let request = translate_request(&s("sonnet"), &vec![ChatMessage::User(s("hello"))], &vec![])
        .unwrap();
    assert_eq!(request.model, "sonnet");
    assert_eq!(request.messages.len(), 1);
    assert_eq!(request.messages[0].role, Role::User);
    assert_eq!(request.messages[0].content, vec![ContentBlock::Text(s("hello"))]);
    assert!(request.tools.is_none());
    assert!(request.tool_choice.is_none());

    let result = translate_response(&vec![ResponseBlock::Text(s("mocked response"))]);
    assert_eq!(result.message, Some("mocked response".into()));
    assert!(result.tool_calls.is_none());
}

#[test]
fn test_complete_with_tools() {
    let request = translate_request(
        &s("sonnet-20241022"),
        &vec![ChatMessage::User(s("hello"))],
        &vec![weather_tool()],
    )
    .unwrap();
    assert_eq!(request.tool_choice, Some(ToolChoice::Auto));
    let tools = request.tools.unwrap();
    assert_eq!(tools.len(), 1);
    assert_eq!(tools[0].name, "get_weather");

    let input = object(&[("location", "San Francisco, CA")]);
    let expected_args = input.to_string();
    let result = translate_response(&vec![
        ResponseBlock::Text(s("I'll check the current weather in San Francisco, CA for you.")),
        ResponseBlock::ToolUse {
            id: s("toolu_01E1yxpxXU4hBgCMLzPL1FuR"),
            name: s("get_weather"),
            input,
        },
    ]);
    assert_eq!(
        result.message,
        Some("I'll check the current weather in San Francisco, CA for you.".into())
    );
    assert!(result.tool_calls.is_some());
    let Some(tool_call) = result.tool_calls.and_then(|f| f.first().cloned()) else {
        panic!("No tool call found")
    };
    assert_eq!(tool_call.name, "get_weather");
    assert_eq!(tool_call.args.as_deref(), Some(expected_args.as_str()));
    assert_eq!(tool_call.args.as_deref(), Some("{\"location\":\"San Francisco, CA\"}"));
}

#[test]
fn plain_messages_become_user_text() {
    for m in [ChatMessage::System(s("sys")), ChatMessage::User(s("sys")), ChatMessage::Summary(s("sys"))] {
        let r = message_to_anthropic(&m);
        assert_eq!(r.role, Role::User);
        assert_eq!(r.content, vec![ContentBlock::Text(s("sys"))]);
    }
}

#[test]
fn assistant_text_then_calls_in_order() {
    let calls = vec![
        ToolCall::new(s("a"), s("first"), Some(s("{}"))),
        ToolCall::new(s("b"), s("second"), None),
    ];
    let r = message_to_anthropic(&ChatMessage::Assistant(Some(s("thinking")), Some(calls)));
    assert_eq!(r.role, Role::Assistant);
    assert_eq!(
        r.content,
        vec![
            ContentBlock::Text(s("thinking")),
            ContentBlock::ToolUse { id: s("a"), name: s("first"), input: Some(s("{}")) },
            ContentBlock::ToolUse { id: s("b"), name: s("second"), input: None },
        ]
    );
}

#[test]
fn assistant_without_text_or_calls_is_empty() {
    let r = message_to_anthropic(&ChatMessage::Assistant(None, None));
    assert_eq!(r.role, Role::Assistant);
    assert!(r.content.is_empty());
    let r = message_to_anthropic(&ChatMessage::Assistant(None, Some(vec![])));
    assert!(r.content.is_empty());
}

#[test]
fn tool_output_without_content_says_success() {
    let call = ToolCall::new(s("call-1"), s("get_weather"), None);
    let r = message_to_anthropic(&ChatMessage::ToolOutput(call.clone(), None));
    assert_eq!(r.role, Role::User);
    assert_eq!(
        r.content,
        vec![ContentBlock::ToolResult { tool_use_id: s("call-1"), content: s("Success") }]
    );
    let r = message_to_anthropic(&ChatMessage::ToolOutput(call, Some(s("sunny"))));
    assert_eq!(
        r.content,
        vec![ContentBlock::ToolResult { tool_use_id: s("call-1"), content: s("sunny") }]
    );
}

#[test]
fn required_list_keeps_declaration_order() {
    let spec = ToolSpec {
        name: s("search"),
        description: s("Searches"),
        parameters: vec![
            param("query", "What to look for", true),
            param("limit", "How many", false),
            param("site", "Where", true),
        ],
    };
    let d = tools_to_anthropic(&spec).unwrap();
    assert_eq!(d.name, "search");
    assert_eq!(d.description, "Searches");
    assert_eq!(d.required, vec![s("query"), s("site")]);
    assert_eq!(
        d.properties,
        vec![
            SchemaProperty { name: s("query"), description: s("What to look for") },
            SchemaProperty { name: s("limit"), description: s("How many") },
            SchemaProperty { name: s("site"), description: s("Where") },
        ]
    );
}

#[test]
fn tool_without_parameters_has_empty_schema() {
    let spec = ToolSpec { name: s("now"), description: s("Time"), parameters: vec![] };
    let d = tools_to_anthropic(&spec).unwrap();
    assert!(d.properties.is_empty());
    assert!(d.required.is_empty());
}

#[test]
fn repeated_parameter_name_is_rejected() {
    let spec = ToolSpec {
        name: s("bad"),
        description: s("Bad"),
        parameters: vec![param("x", "one", true), param("y", "two", false), param("x", "three", false)],
    };
    assert!(!param_names_distinct(&spec.parameters));
    assert_eq!(
        tools_to_anthropic(&spec),
        Err(TranslationError::DuplicateParameter { tool: s("bad") })
    );
    let r = translate_request(&s("m"), &vec![], &vec![weather_tool(), spec]);
    assert_eq!(r.err(), Some(TranslationError::DuplicateParameter { tool: s("bad") }));
}

#[test]
fn repeated_tool_name_is_rejected() {
    let r = translate_request(&s("m"), &vec![], &vec![weather_tool(), weather_tool()]);
    assert_eq!(r.err(), Some(TranslationError::DuplicateTool { tool: s("get_weather") }));
}

#[test]
fn messages_keep_conversation_order() {
    let conversation = vec![
        ChatMessage::System(s("be brief")),
        ChatMessage::User(s("hi")),
        ChatMessage::Assistant(Some(s("hello")), None),
    ];
    let r = translate_request(&s("m"), &conversation, &vec![]).unwrap();
    let roles: Vec<Role> = r.messages.iter().map(|m| m.role).collect();
    assert_eq!(roles, vec![Role::User, Role::User, Role::Assistant]);
    assert_eq!(r.messages[2].content, vec![ContentBlock::Text(s("hello"))]);
}

#[test]
fn single_text_reply_round_trip() {
    let r = collect_response(&vec![ContentBlock::Text(s("only"))]);
    assert_eq!(r.message, Some(s("only")));
    assert_eq!(r.tool_calls, None);
}

#[test]
fn text_and_tool_reply_round_trip() {
    let r = translate_response(&vec![
        ResponseBlock::Text(s("checking")),
        ResponseBlock::ToolUse { id: s("X"), name: s("get_weather"), input: object(&[("location", "SF")]) },
    ]);
    assert_eq!(r.message, Some(s("checking")));
    assert_eq!(
        r.tool_calls,
        Some(vec![ToolCall::new(s("X"), s("get_weather"), Some(s("{\"location\":\"SF\"}")))])
    );
}

#[test]
fn first_text_wins_and_all_calls_are_kept() {
    let r = translate_response(&vec![
        ResponseBlock::ToolUse { id: s("1"), name: s("a"), input: serde_json::Value::Null },
        ResponseBlock::Text(s("first")),
        ResponseBlock::ToolResult { tool_use_id: s("1"), content: Some(s("ignored")) },
        ResponseBlock::Text(s("second")),
        ResponseBlock::ToolUse { id: s("2"), name: s("b"), input: serde_json::Value::Bool(true) },
    ]);
    assert_eq!(r.message, Some(s("first")));
    assert_eq!(
        r.tool_calls,
        Some(vec![
            ToolCall::new(s("1"), s("a"), Some(s("null"))),
            ToolCall::new(s("2"), s("b"), Some(s("true"))),
        ])
    );
}

#[test]
fn empty_reply_has_neither_text_nor_calls() {
    let r = translate_response(&vec![]);
    assert_eq!(r.message, None);
    assert_eq!(r.tool_calls, None);
}
