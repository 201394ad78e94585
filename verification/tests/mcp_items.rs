use bioma_tool::prompts::greet::{Greet, GreetArgs};
use bioma_tool::resources::readme::Readme;
use bioma_tool::roots::readme::Readme as ReadmeRoot;
use bioma_tool::schema::Role;
use bioma_tool::tools::echo::{Echo, EchoArgs};
use bioma_tool::tools::memory::{Memory, MemoryAction, MemoryArgs, MEMORY_SCHEMA};
use bioma_tool::tools::random::{RandomNumber, RandomNumberArgs, RANDOM_SCHEMA};
use bioma_tool::tools::ToolError;

fn text_of(r: &bioma_tool::schema::CallToolResult) -> String {
    r.content[0].text.clone()
}

fn args(action: MemoryAction, key: Option<&str>, value: Option<&str>) -> MemoryArgs {
    MemoryArgs { action, key: key.map(|k| k.to_string()), value: value.map(|v| v.to_string()) }
}

#[test]
fn test_readme_schema() {
    let resource = Readme::def();
    assert_eq!(resource.name, "readme");
    assert_eq!(resource.description.unwrap(), "Returns the Bioma README.md content");
}

#[test]
fn test_auto_generated_schema() {
    let tool = Memory::def();
    println!("Tool: {:?}", tool);
}

#[test]
fn test_greet() {
    let greet = Greet;
    let props = GreetArgs { name: "Alice".to_string() };
    let result = greet.get(props).unwrap();
    assert_eq!(result.messages[0].content.text, "Hello, Alice! Welcome to Bioma!");
}

#[test]
fn test_greet_schema() {
    let prompt = Greet::def();
    assert_eq!(prompt.name, "greet");
    assert_eq!(prompt.description.unwrap(), "A friendly greeting prompt");
    let args = prompt.arguments.unwrap();
    assert_eq!(args.len(), 1);
    let arg = &args[0];
    assert_eq!(arg.name, "name");
    assert_eq!(arg.description.as_ref().unwrap(), "Name of the person to greet");
    assert!(arg.required.unwrap());
}

#[test]
fn greet_second_message_is_the_name() {
    let result = Greet.get(GreetArgs { name: "Bob".to_string() }).unwrap();
    assert_eq!(result.messages.len(), 2);
    assert_eq!(result.messages[0].role, Role::Assistant);
    assert_eq!(result.messages[1].role, Role::User);
    assert_eq!(result.messages[1].content.text, "Bob");
    assert_eq!(result.messages[1].content.type_, "text");
}

#[test]
fn test_readme() {
    let result = Readme.read("".to_string());
    let content = &result.contents[0];
    let text = content.text.as_ref().expect("text field should be a string");
    assert!(text.contains("# Bioma"));
    assert_eq!(content.uri, "file:///bioma/README.md");
    assert_eq!(content.mime_type.as_deref(), Some("text/markdown"));
    assert_eq!(Readme.read("file:///elsewhere".to_string()), result);
}

#[test]
fn test_readme_roots() {
    let readme = ReadmeRoot;
    let result = readme.list_roots().unwrap();
    assert_eq!(result.roots.len(), 1);
    let root = &result.roots[0];
    assert_eq!(root.name, Some("readme".to_string()));
    assert_eq!(root.uri, "file:///bioma/README.md");
}

#[test]
fn test_echo_tool() {
    let tool = Echo;
    let props = EchoArgs { message: "hello".to_string() };
    let result = tool.call(props).unwrap();
    assert_eq!(result.content[0].text, "hello");
    assert_eq!(result.is_error, Some(false));
}

#[test]
fn test_memory_operations() {
    let mut tool = Memory::new();

    let result = tool.call(args(MemoryAction::Store, Some("test_key"), Some(r#"{"test":"value"}"#))).unwrap();
    assert!(text_of(&result).contains("Successfully stored"));

    let result = tool.call(args(MemoryAction::Retrieve, Some("test_key"), None)).unwrap();
    assert!(text_of(&result).contains("test"));

    let result = tool.call(args(MemoryAction::List, None, None)).unwrap();
    assert!(text_of(&result).contains("test_key"));

    let result = tool.call(args(MemoryAction::Delete, Some("test_key"), None)).unwrap();
    assert!(text_of(&result).contains("Successfully deleted"));

    tool.call(args(MemoryAction::Store, Some("test_key2"), Some(r#"{"test":"value"}"#))).unwrap();
    let result = tool.call(args(MemoryAction::Clear, None, None)).unwrap();
    assert!(text_of(&result).contains("Successfully cleared"));

    let result = tool.call(args(MemoryAction::List, None, None)).unwrap();
    assert_eq!(text_of(&result), "[]");
}

#[test]
fn test_memory_value_types() {
    let mut tool = Memory::new();
    let cases = vec![
        ("object_key", r#"{"test":"value"}"#),
        ("array_key", "[1,2,3]"),
        ("string_key", r#""test string""#),
        ("number_key", "42"),
        ("boolean_key", "true"),
        ("null_key", "null"),
    ];
    for (key, value) in cases {
        let result = tool.call(args(MemoryAction::Store, Some(key), Some(value))).unwrap();
        assert!(text_of(&result).contains("Successfully stored"));
        let result = tool.call(args(MemoryAction::Retrieve, Some(key), None)).unwrap();
        let retrieved: serde_json::Value = serde_json::from_str(&text_of(&result)).unwrap();
        let expected: serde_json::Value = serde_json::from_str(value).unwrap();
        assert_eq!(retrieved, expected);
    }
}

#[test]
fn memory_retrieve_is_pretty_printed() {
    let mut tool = Memory::new();
    tool.call(args(MemoryAction::Store, Some("k"), Some(r#"{"a":1}"#))).unwrap();
    let result = tool.call(args(MemoryAction::Retrieve, Some("k"), None)).unwrap();
    assert_eq!(text_of(&result), "{\n  \"a\": 1\n}");
    assert_eq!(result.is_error, Some(false));
}

#[test]
fn memory_list_keeps_store_order_as_pretty_array() {
    let mut tool = Memory::new();
    tool.call(args(MemoryAction::Store, Some("b"), Some("1"))).unwrap();
    tool.call(args(MemoryAction::Store, Some("a"), Some("2"))).unwrap();
    tool.call(args(MemoryAction::Store, Some("b"), Some("3"))).unwrap();
    let result = tool.call(args(MemoryAction::List, None, None)).unwrap();
    assert_eq!(text_of(&result), "[\n  \"b\",\n  \"a\"\n]");
}

#[test]
fn memory_errors_and_missing_keys() {
    let mut tool = Memory::new();
    let r = tool.call(args(MemoryAction::Store, None, Some("1"))).unwrap();
    assert_eq!(text_of(&r), "Key is required for store action");
    assert_eq!(r.is_error, Some(true));
    let r = tool.call(args(MemoryAction::Store, Some("k"), None)).unwrap();
    assert_eq!(text_of(&r), "Value is required for store action");
    let r = tool.call(args(MemoryAction::Retrieve, None, None)).unwrap();
    assert_eq!(text_of(&r), "Key is required for retrieve action");
    let r = tool.call(args(MemoryAction::Delete, None, None)).unwrap();
    assert_eq!(text_of(&r), "Key is required for delete action");
    let r = tool.call(args(MemoryAction::Retrieve, Some("nope"), None)).unwrap();
    assert_eq!(text_of(&r), "No memory found for key: nope");
    assert_eq!(r.is_error, Some(false));
    let r = tool.call(args(MemoryAction::Delete, Some("nope"), None)).unwrap();
    assert_eq!(text_of(&r), "No memory found to delete for key: nope");
    tool.call(args(MemoryAction::Store, Some("bad"), Some("not json"))).unwrap();
    match tool.call(args(MemoryAction::Retrieve, Some("bad"), None)) {
        Err(ToolError::ResultSerialize(_)) => {}
        other => panic!("expected a serialization error, got {:?}", other),
    }
}

#[test]
fn memory_retrieve_after_delete_finds_nothing() {
    let mut tool = Memory::new();
    tool.call(args(MemoryAction::Store, Some("x"), Some("1"))).unwrap();
    let r = tool.call(args(MemoryAction::Delete, Some("x"), None)).unwrap();
    assert_eq!(text_of(&r), "Successfully deleted memory with key: x");
    let r = tool.call(args(MemoryAction::Retrieve, Some("x"), None)).unwrap();
    assert_eq!(text_of(&r), "No memory found for key: x");
}

#[test]
fn test_memory_input_schema() {
    let tool = Memory::def();
    assert_eq!(tool.input_schema, MEMORY_SCHEMA);
    let schema: serde_json::Value = serde_json::from_str(&tool.input_schema).unwrap();
    assert_eq!(schema["type"], "object");
    let props = schema["properties"].as_object().expect("Should have properties");
    let action = props.get("action").expect("Should have action property");
    assert_eq!(action["type"], "string");
    let enums = action["enum"].as_array().expect("Should have enum values for action");
    for a in ["store", "retrieve", "list", "delete", "clear"] {
        assert!(enums.contains(&serde_json::Value::String(a.to_string())));
    }
    assert!(props.contains_key("key"), "Should have key property");
    assert!(props.contains_key("value"), "Should have value property");
    let required = schema["required"].as_array().expect("Should have required fields");
    assert_eq!(required.len(), 1, "Only action should be required");
    assert_eq!(required[0], "action");
}

#[test]
fn random_rejects_empty_range() {
    let r = RandomNumber.call(RandomNumberArgs { start: 5, end: 5 }).unwrap();
    assert_eq!(r.content[0].text, "Start value must be smaller than end value");
    assert_eq!(r.is_error, Some(true));
}

#[test]
fn random_draws_inside_range() {
    for _ in 0..50 {
        let r = RandomNumber.call(RandomNumberArgs { start: -3, end: 4 }).unwrap();
        let text = &r.content[0].text;
        let n: i32 = text.strip_prefix("Generated number: ").unwrap().parse().unwrap();
        assert!((-3..=4).contains(&n));
        assert_eq!(r.is_error, Some(false));
    }
}

#[test]
fn random_reports_negative_numbers() {
    let r = RandomNumber::drawn_result(-42);
    assert_eq!(r.content[0].text, "Generated number: -42");
    assert_eq!(RandomNumber::def().input_schema, RANDOM_SCHEMA);
    assert_eq!(RandomNumber::def().name, "random");
}

#[test]
fn tool_error_messages() {
    assert_eq!(ToolError::Execution("x".to_string()).to_string(), "Tool execution failed: x");
    assert_eq!(ToolError::Custom("y".to_string()).to_string(), "Custom error: y");
}
