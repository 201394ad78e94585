use bioma_tool::json::JsonValue;
use bioma_tool::json_schema::{InstanceType, RootSchema, ToolInputSchema, TypeSpec};
use bioma_tool::load_test::{check_endpoints, contains_endpoint, OrderingState, TestType, TestVariation, WeightedEndpoint};
use bioma_tool::rag_server::tool::{convert_to_root_schema, parse_tool_info, ToolClient, ToolInfo, Tools};

fn prop(members: Vec<(&str, JsonValue)>) -> Vec<(String, JsonValue)> {
    members.into_iter().map(|(k, v)| (k.to_string(), v)).collect()
}

fn schema() -> RootSchema {
    convert_to_root_schema(ToolInputSchema { properties: None, required: None }).unwrap()
}

#[test]
fn tool_schema_conversion() {
    let input = ToolInputSchema {
        properties: Some(vec![
            (
                "message".to_string(),
                prop(vec![
                    ("default", JsonValue::Str("hi".to_string())),
                    ("description", JsonValue::Str("The message".to_string())),
                    ("type", JsonValue::Str("string".to_string())),
                ]),
            ),
            (
                "n".to_string(),
                prop(vec![(
                    "type",
                    JsonValue::Array(vec![JsonValue::Str("integer".to_string()), JsonValue::Str("bogus".to_string())]),
                )]),
            ),
        ]),
        required: Some(vec!["message".to_string(), "message".to_string()]),
    };
    let root = convert_to_root_schema(input).unwrap();
    assert_eq!(root.meta_schema.as_deref(), Some("http://json-schema.org/draft-07/schema#"));
    assert!(matches!(root.schema.instance_type, Some(TypeSpec::Single(InstanceType::Object))));
    let ov = root.schema.object.unwrap();
    assert_eq!(ov.required, vec!["message".to_string()]);
    let m = &ov.properties[0].1;
    let meta = m.metadata.as_ref().unwrap();
    assert_eq!(meta.description.as_deref(), Some("The message"));
    assert!(meta.default.is_none(), "a later description replaces the default");
    assert!(matches!(m.instance_type, Some(TypeSpec::Single(InstanceType::String))));
    match &ov.properties[1].1.instance_type {
        Some(TypeSpec::Many(ts)) => assert_eq!(ts, &vec![InstanceType::Integer]),
        other => panic!("unexpected {:?}", other),
    }
    let bad = ToolInputSchema {
        properties: Some(vec![("x".to_string(), prop(vec![("type", JsonValue::Str("date".to_string()))]))]),
        required: None,
    };
    assert_eq!(convert_to_root_schema(bad).unwrap_err(), "Unsupported type: date");
    let bad = ToolInputSchema {
        properties: Some(vec![("x".to_string(), prop(vec![("type", JsonValue::Bool(true))]))]),
        required: None,
    };
    assert_eq!(convert_to_root_schema(bad).unwrap_err(), "Invalid type value");
    assert!(schema().schema.object.is_none());
}

#[test]
fn tools_are_found_by_name() {
    let mut tools = Tools::new();
    tools.add_client(ToolClient {
        server: "one".to_string(),
        client_id: "/c/one".to_string(),
        tools: vec![ToolInfo { name: "echo".to_string(), description: "e".to_string(), parameters: schema() }],
    });
    tools.add_client(ToolClient {
        server: "two".to_string(),
        client_id: "/c/two".to_string(),
        tools: vec![
            ToolInfo { name: "random".to_string(), description: "r".to_string(), parameters: schema() },
            ToolInfo { name: "echo".to_string(), description: "e2".to_string(), parameters: schema() },
        ],
    });
    let (t, c) = tools.get_tool("echo").unwrap();
    assert_eq!((t.description.as_str(), c.server.as_str()), ("e", "one"));
    let (_, c) = tools.get_tool("random").unwrap();
    assert_eq!(c.client_id, "/c/two");
    assert!(tools.get_tool("none").is_none());
    assert_eq!(tools.get_tool_names(), vec!["echo".to_string(), "random".to_string(), "echo".to_string()]);
}

#[test]
fn test_types_and_weights() {
    assert_eq!(TestType::from_str("HeAlTh").unwrap(), TestType::Health);
    assert_eq!(TestType::from_str("bogus").unwrap_err(), "Unknown test type: bogus");
    assert_eq!(TestType::all_order().len(), 10);
    assert_eq!(TestType::all_order()[2], TestType::Upload);
    assert_eq!(WeightedEndpoint::from_str("chat:3").unwrap(), WeightedEndpoint { endpoint: TestType::Chat, weight: 3 });
    assert_eq!(WeightedEndpoint::from_str("ask").unwrap(), WeightedEndpoint { endpoint: TestType::Ask, weight: 1 });
    assert_eq!(WeightedEndpoint::from_str("chat:x").unwrap_err(), "Invalid weight: x");
    assert_eq!(WeightedEndpoint::from_str("nope:1").unwrap_err(), "Invalid endpoint: nope");
    assert_eq!(WeightedEndpoint::from_str("a:b:c").unwrap_err(), "Invalid format: a:b:c");
    let eps = vec![WeightedEndpoint { endpoint: TestType::All, weight: 1 }, WeightedEndpoint { endpoint: TestType::Ask, weight: 1 }];
    assert!(contains_endpoint(&eps, TestType::All));
    assert_eq!(check_endpoints(&eps).unwrap_err(), "\"all\" endpoint should be used alone");
    assert!(check_endpoints(&eps[..1].to_vec()).is_ok());
}

#[test]
fn ordering_cycles_through_the_endpoints() {
    let eps = vec![WeightedEndpoint { endpoint: TestType::Ask, weight: 1 }, WeightedEndpoint { endpoint: TestType::Chat, weight: 1 }];
    let mut o = OrderingState::for_endpoints(&eps);
    assert!(o.should_execute(TestType::Ask));
    assert!(!o.should_execute(TestType::Chat));
    o.advance();
    assert!(o.should_execute(TestType::Chat));
    o.advance();
    assert!(o.should_execute(TestType::Ask));
    assert!(OrderingState::new().should_execute(TestType::Rerank));
    let all = OrderingState::for_endpoints(&vec![WeightedEndpoint { endpoint: TestType::All, weight: 1 }]);
    assert!(all.should_execute(TestType::Health));
    let mut v = TestVariation::new();
    v.next(5, "f1".to_string());
    assert_eq!((v.index, v.file_path.as_str()), (1, "f1"));
    for _ in 0..4 {
        v.next(5, "f".to_string());
    }
    assert_eq!(v.index, 0);
}

#[test]
fn tool_schema_required_names_sorted_set() {
    let root = convert_to_root_schema(ToolInputSchema {
        properties: None,
        required: Some(vec!["zeta".to_string(), "alpha".to_string(), "zeta".to_string(), "Beta".to_string()]),
    })
    .unwrap();
    let ov = root.schema.object.unwrap();
    assert!(ov.properties.is_empty());
    assert_eq!(ov.required, vec!["Beta".to_string(), "alpha".to_string(), "zeta".to_string()]);
}

#[test]
fn rag_tools_listed_server_by_server() {
    let info = |n: &str| ToolInfo { name: n.to_string(), description: String::new(), parameters: schema() };
    let mut tools = Tools::new();
    tools.add_client(ToolClient { server: "a".to_string(), client_id: "/a".to_string(), tools: vec![info("x"), info("y")] });
    tools.add_client(ToolClient { server: "b".to_string(), client_id: "/b".to_string(), tools: vec![info("z")] });
    let all: Vec<&str> = tools.get_tools().iter().map(|t| t.name.as_str()).collect();
    assert_eq!(all, vec!["x", "y", "z"]);
}

#[test]
fn rag_parse_tool_info() {
    let input = ToolInputSchema {
        properties: Some(vec![("q".to_string(), prop(vec![("type", JsonValue::Str("string".to_string()))]))]),
        required: Some(vec!["q".to_string()]),
    };
    let t = parse_tool_info("search".to_string(), Some("Searches".to_string()), input);
    assert_eq!(t.name, "search");
    assert_eq!(t.description, "Searches");
    let ov = t.parameters.schema.object.unwrap();
    assert_eq!(ov.properties[0].0, "q");
    assert_eq!(ov.required, vec!["q".to_string()]);
}
