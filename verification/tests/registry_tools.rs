//! Registry lookup, replacement, and dispatch.

use johnathan::get_time::GetTimeTool;
use johnathan::messages::{Tool, ToolView};
use johnathan::registry::{ToolError, ToolExecutor, ToolRegistry};

/// A deterministic test tool: a fixed name, a fixed reply.
struct EchoTool {
    name: String,
    reply: Result<String, String>,
}

impl ToolExecutor for EchoTool {
    // The ghost items of the interface exist only for specification and
    // are never called at run time.
    fn spec_name(&self) -> vstd::seq::Seq<char> {
        unreachable!()
    }

    fn spec_definition(&self) -> ToolView {
        unreachable!()
    }

    fn admits(
        &self,
        _input: serde_json::Value,
        _r: Result<vstd::seq::Seq<char>, vstd::seq::Seq<char>>,
    ) -> bool {
        unreachable!()
    }

    fn name(&self) -> String {
        self.name.clone()
    }

    fn definition(&self) -> Tool {
        Tool::new(self.name.as_str(), "echoes a fixed reply", serde_json::from_str("{}").unwrap())
    }

    fn execute(&self, _input: serde_json::Value) -> Result<String, String> {
        self.reply.clone()
    }
}

fn empty_input() -> serde_json::Value {
    serde_json::from_str("{}").unwrap()
}

#[test]
fn unknown_tool_name_fails_with_unknown_tool() {
    let registry: ToolRegistry<GetTimeTool> = ToolRegistry::new();
    let outcome = registry.execute("nonexistent", empty_input());
    match outcome {
        Err(ToolError::UnknownTool { name }) => assert_eq!(name, "nonexistent"),
        _ => panic!("expected an unknown-tool failure"),
    }
}

#[test]
fn registered_tool_result_is_passed_through() {
    let mut registry: ToolRegistry<EchoTool> = ToolRegistry::new();
    registry.register(EchoTool { name: "echo".to_string(), reply: Ok("pong".to_string()) });
    let outcome = registry.execute("echo", empty_input());
    assert_eq!(outcome.ok().as_deref(), Some("pong"));
}

#[test]
fn tool_failure_is_data_not_an_exception() {
    let mut registry: ToolRegistry<EchoTool> = ToolRegistry::new();
    registry.register(EchoTool { name: "echo".to_string(), reply: Err("boom".to_string()) });
    match registry.execute("echo", empty_input()) {
        Err(ToolError::Failed { message }) => assert_eq!(message, "boom"),
        _ => panic!("expected the tool's own failure"),
    }
}

#[test]
fn last_registration_for_a_name_wins() {
    let mut registry: ToolRegistry<EchoTool> = ToolRegistry::new();
    registry.register(EchoTool { name: "echo".to_string(), reply: Ok("first".to_string()) });
    registry.register(EchoTool { name: "echo".to_string(), reply: Ok("second".to_string()) });
    assert_eq!(registry.definitions().len(), 1);
    let outcome = registry.execute("echo", empty_input());
    assert_eq!(outcome.ok().as_deref(), Some("second"));
}

#[test]
fn registration_keeps_names_distinct() {
    let mut registry: ToolRegistry<EchoTool> = ToolRegistry::new();
    assert!(registry.names_distinct());
    registry.register(EchoTool { name: "alpha".to_string(), reply: Ok("a".to_string()) });
    registry.register(EchoTool { name: "beta".to_string(), reply: Ok("b".to_string()) });
    registry.register(EchoTool { name: "alpha".to_string(), reply: Ok("c".to_string()) });
    assert!(registry.names_distinct());
    assert_eq!(registry.definitions().len(), 2);
}

#[test]
fn definitions_reflect_every_registered_tool() {
    let mut registry: ToolRegistry<EchoTool> = ToolRegistry::new();
    registry.register(EchoTool { name: "alpha".to_string(), reply: Ok("a".to_string()) });
    registry.register(EchoTool { name: "beta".to_string(), reply: Ok("b".to_string()) });
    let defs = registry.definitions();
    assert_eq!(defs.len(), 2);
    assert_eq!(defs[0].name, "alpha");
    assert_eq!(defs[1].name, "beta");
}

#[test]
fn get_time_tool_definition_advertises_its_name_and_schema() {
    let mut registry: ToolRegistry<GetTimeTool> = ToolRegistry::new();
    registry.register(GetTimeTool::new());
    let defs = registry.definitions();
    assert_eq!(defs.len(), 1);
    assert_eq!(defs[0].name, "get_current_time");
    let schema: serde_json::Value =
        serde_json::from_str("{\"type\":\"object\",\"properties\":{},\"required\":[]}").unwrap();
    assert_eq!(defs[0].input_schema, schema);
    assert!(defs[0].description.contains("current time"));
}
