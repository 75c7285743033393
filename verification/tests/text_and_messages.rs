//! String utilities, message builders, and the time tool's output.

use johnathan::get_time::{time_report, GetTimeTool};
use johnathan::messages::{ChatResponse, ContentBlock, Message, MessageContent, Role, Tool, ToolCall};
use johnathan::registry::ToolExecutor;
use johnathan::strings::{should_exit, str_eq, u64_to_string};

#[test]
fn should_exit_accepts_quit_words_in_any_case() {
    assert!(should_exit("quit"));
    assert!(should_exit("QUIT"));
    assert!(should_exit("Exit"));
    assert!(should_exit("q"));
    assert!(should_exit("Q"));
    assert!(!should_exit("quite"));
    assert!(!should_exit("hello"));
    assert!(!should_exit(""));
    assert!(!should_exit("exit now"));
}

#[test]
fn str_eq_compares_by_contents() {
    assert!(str_eq("", ""));
    assert!(str_eq("abc", "abc"));
    assert!(!str_eq("abc", "abd"));
    assert!(!str_eq("abc", "ab"));
    assert!(str_eq("naïve", "naïve"));
}

#[test]
fn u64_renders_in_decimal() {
    assert_eq!(u64_to_string(0), "0");
    assert_eq!(u64_to_string(7), "7");
    assert_eq!(u64_to_string(42), "42");
    assert_eq!(u64_to_string(1234567890), "1234567890");
    assert_eq!(u64_to_string(u64::MAX), "18446744073709551615");
}

#[test]
fn time_report_renders_the_reading() {
    assert_eq!(time_report(0), "Current Unix timestamp: 0 seconds since epoch");
    assert_eq!(time_report(1700000000), "Current Unix timestamp: 1700000000 seconds since epoch");
}

#[test]
fn get_time_tool_reports_a_timestamp() {
    let tool = GetTimeTool::new();
    let input: serde_json::Value = serde_json::from_str("{}").unwrap();
    let output = tool.execute(input).unwrap();
    assert!(output.starts_with("Current Unix timestamp: "));
    assert!(output.ends_with(" seconds since epoch"));
    let middle = output
        .strip_prefix("Current Unix timestamp: ")
        .unwrap()
        .strip_suffix(" seconds since epoch")
        .unwrap();
    let seconds: u64 = middle.parse().unwrap();
    assert!(seconds > 0);
}

#[test]
fn user_and_assistant_messages_carry_plain_text() {
    let m = Message::user("hello");
    assert!(matches!(m.role, Role::User));
    match &m.content {
        MessageContent::Text { content } => assert_eq!(content, "hello"),
        _ => panic!("expected text content"),
    }
    let m = Message::assistant("hi");
    assert!(matches!(m.role, Role::Assistant));
    match &m.content {
        MessageContent::Text { content } => assert_eq!(content, "hi"),
        _ => panic!("expected text content"),
    }
}

#[test]
fn assistant_tool_use_restates_calls_in_order() {
    let input: serde_json::Value = serde_json::from_str("{\"x\":5}").unwrap();
    let calls = vec![
        ToolCall { id: "a".to_string(), name: "one".to_string(), input: input.clone() },
        ToolCall { id: "b".to_string(), name: "two".to_string(), input: serde_json::from_str("null").unwrap() },
    ];
    let m = Message::assistant_tool_use(&calls);
    assert!(matches!(m.role, Role::Assistant));
    match &m.content {
        MessageContent::Blocks { content } => {
            assert_eq!(content.len(), 2);
            match &content[0] {
                ContentBlock::ToolUse { id, name, input: block_input } => {
                    assert_eq!(id, "a");
                    assert_eq!(name, "one");
                    assert_eq!(*block_input, input);
                },
                _ => panic!("expected a tool-use block"),
            }
            match &content[1] {
                ContentBlock::ToolUse { id, .. } => assert_eq!(id, "b"),
                _ => panic!("expected a tool-use block"),
            }
        },
        _ => panic!("expected block content"),
    }
}

#[test]
fn tool_results_pair_ids_with_result_text() {
    let m = Message::tool_results(vec![
        ("t1".to_string(), "first".to_string()),
        ("t2".to_string(), "second".to_string()),
    ]);
    assert!(matches!(m.role, Role::User));
    match &m.content {
        MessageContent::Blocks { content } => {
            assert_eq!(content.len(), 2);
            match &content[0] {
                ContentBlock::ToolResult { tool_use_id, content: text } => {
                    assert_eq!(tool_use_id, "t1");
                    assert_eq!(text, "first");
                },
                _ => panic!("expected a tool-result block"),
            }
        },
        _ => panic!("expected block content"),
    }
}

#[test]
fn has_tool_calls_reports_pending_tool_use() {
    let empty = ChatResponse {
        text: "done".to_string(),
        stop_reason: "end_turn".to_string(),
        tool_calls: Vec::new(),
    };
    assert!(!empty.has_tool_calls());
    let with_call = ChatResponse {
        text: String::new(),
        stop_reason: "tool_use".to_string(),
        tool_calls: vec![ToolCall {
            id: "t1".to_string(),
            name: "get_current_time".to_string(),
            input: serde_json::from_str("{}").unwrap(),
        }],
    };
    assert!(with_call.has_tool_calls());
}

#[test]
fn tool_new_copies_its_parts() {
    let schema: serde_json::Value = serde_json::from_str("{\"type\":\"object\"}").unwrap();
    let tool = Tool::new("clock", "tells the time", schema.clone());
    assert_eq!(tool.name, "clock");
    assert_eq!(tool.description, "tells the time");
    assert_eq!(tool.input_schema, schema);
}
