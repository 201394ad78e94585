use bioma_tool::cognition::chat_tools::{find_tool, ChatToolError, ToolChat, ToolChatAction};
use bioma_tool::cognition::conversation::MessageRole;
use bioma_tool::cognition::tool_schema::{convert_schema_object, convert_to_root_schema, parse_tool_info};
use bioma_tool::json::JsonValue;
use bioma_tool::json_schema::{InstanceType, SchemaObject, ToolInputSchema, TypeSpec};

fn s(x: &str) -> JsonValue {
    JsonValue::Str(x.to_string())
}

fn kw(k: &str, v: JsonValue) -> (String, JsonValue) {
    (k.to_string(), v)
}

fn one_property(members: Vec<(String, JsonValue)>) -> ToolInputSchema {
    ToolInputSchema { properties: Some(vec![("p".to_string(), members)]), required: None }
}

fn is_single(x: &SchemaObject, t: InstanceType) -> bool {
    matches!(x.instance_type, Some(TypeSpec::Single(u)) if u == t)
}

#[test]
fn cognition_schema_full_conversion() {
    let input = ToolInputSchema {
        properties: Some(vec![
            ("query".to_string(), vec![kw("type", s("string")), kw("description", s("q"))]),
            (
                "filters".to_string(),
                vec![
                    kw("type", s("object")),
                    kw(
                        "properties",
                        JsonValue::Object(vec![
                            kw("tag", s("string")),
                            kw(
                                "limit",
                                JsonValue::Object(vec![
                                    kw("type", s("integer")),
                                    kw("default", JsonValue::Number("5".to_string())),
                                ]),
                            ),
                        ]),
                    ),
                    kw("required", JsonValue::Array(vec![s("tag"), s("tag"), JsonValue::Number("1".to_string())])),
                ],
            ),
            (
                "tags".to_string(),
                vec![
                    kw("type", s("array")),
                    kw(
                        "items",
                        JsonValue::Object(vec![kw("type", s("string")), kw("enum", JsonValue::Array(vec![s("a"), s("b")]))]),
                    ),
                ],
            ),
        ]),
        required: Some(vec!["query".to_string(), "filters".to_string(), "query".to_string()]),
    };
    let root = convert_to_root_schema(input).expect("converts");
    assert_eq!(root.meta_schema.as_deref(), Some("http://json-schema.org/draft-07/schema#"));
    assert!(is_single(&root.schema, InstanceType::Object));
    assert!(root.schema.metadata.is_none());
    let ov = root.schema.object.as_ref().unwrap();
    assert_eq!(ov.required, vec!["filters".to_string(), "query".to_string()]);
    let names: Vec<&str> = ov.properties.iter().map(|(n, _)| n.as_str()).collect();
    assert_eq!(names, vec!["query", "filters", "tags"]);

    let query = &ov.properties[0].1;
    assert!(is_single(query, InstanceType::String));
    let meta = query.metadata.as_ref().unwrap();
    assert_eq!(meta.description.as_deref(), Some("q"));
    assert!(meta.default.is_none());

    let filters = &ov.properties[1].1;
    assert!(is_single(filters, InstanceType::Object));
    let fo = filters.object.as_ref().unwrap();
    assert_eq!(fo.required, vec!["tag".to_string()]);
    assert_eq!(fo.properties.len(), 2);
    assert_eq!(fo.properties[0].0, "tag");
    assert!(is_single(&fo.properties[0].1, InstanceType::String));
    let tag_meta = fo.properties[0].1.metadata.as_ref().unwrap();
    assert!(tag_meta.description.is_none() && tag_meta.default.is_none());
    assert_eq!(fo.properties[1].0, "limit");
    assert!(is_single(&fo.properties[1].1, InstanceType::Integer));
    assert!(matches!(
        fo.properties[1].1.metadata.as_ref().unwrap().default,
        Some(JsonValue::Number(ref n)) if n == "5"
    ));

    let tags = &ov.properties[2].1;
    assert!(is_single(tags, InstanceType::Array));
    let items = tags.items.as_ref().unwrap();
    assert!(is_single(items, InstanceType::String));
    let ev = items.enum_values.as_ref().unwrap();
    assert_eq!(ev.len(), 2);
    assert!(matches!(&ev[0], JsonValue::Str(a) if a == "a"));
}

#[test]
fn cognition_schema_without_properties() {
    let root = convert_to_root_schema(ToolInputSchema { properties: None, required: Some(vec!["x".to_string()]) })
        .expect("converts");
    assert!(is_single(&root.schema, InstanceType::Object));
    assert!(root.schema.object.is_none());
}

#[test]
fn cognition_schema_type_errors() {
    let e = convert_schema_object(one_property(vec![kw("type", s("foo"))])).unwrap_err();
    assert_eq!(e, "Unsupported type: foo");
    let e = convert_schema_object(one_property(vec![kw("type", JsonValue::Array(vec![s("bar")]))])).unwrap_err();
    assert_eq!(e, "No valid types found in array");
    let e = convert_schema_object(one_property(vec![kw("type", JsonValue::Bool(true))])).unwrap_err();
    assert_eq!(e, "Invalid type value");
}

#[test]
fn cognition_schema_type_list_keeps_known_names() {
    let root = convert_schema_object(one_property(vec![kw(
        "type",
        JsonValue::Array(vec![s("string"), s("bogus"), s("null")]),
    )]))
    .unwrap();
    let p = &root.object.as_ref().unwrap().properties[0].1;
    assert!(matches!(&p.instance_type, Some(TypeSpec::Many(ts)) if *ts == vec![InstanceType::String, InstanceType::Null]));
}

#[test]
fn cognition_schema_nested_error_first_in_key_order() {
    // `items` is converted before `type`, so its error is the one returned.
    let e = convert_schema_object(one_property(vec![
        kw("type", s("nope")),
        kw("items", JsonValue::Object(vec![kw("type", s("bad"))])),
    ]))
    .unwrap_err();
    assert_eq!(e, "Unsupported type: bad");
}

#[test]
fn cognition_schema_last_keyword_counts() {
    let root = convert_schema_object(one_property(vec![kw("description", s("a")), kw("description", s("b"))])).unwrap();
    let p = &root.object.as_ref().unwrap().properties[0].1;
    assert_eq!(p.metadata.as_ref().unwrap().description.as_deref(), Some("b"));
    assert!(p.instance_type.is_none());
}

#[test]
fn cognition_schema_required_without_properties() {
    let root = convert_schema_object(one_property(vec![kw("required", JsonValue::Array(vec![s("z"), s("a")]))])).unwrap();
    let p = &root.object.as_ref().unwrap().properties[0].1;
    let o = p.object.as_ref().unwrap();
    assert!(o.properties.is_empty());
    assert_eq!(o.required, vec!["a".to_string(), "z".to_string()]);
}

#[test]
fn cognition_parse_tool_info() {
    let info = parse_tool_info("echo".to_string(), None, one_property(vec![kw("type", s("string"))]));
    assert_eq!(info.name, "echo");
    assert_eq!(info.description, "");
    assert_eq!(info.parameters.meta_schema.as_deref(), Some("http://json-schema.org/draft-07/schema#"));
}

#[test]
fn cognition_chat_tool_lookup() {
    let names = vec!["echo".to_string(), "memory".to_string(), "echo".to_string()];
    assert_eq!(find_tool(&names, "echo").unwrap(), 0);
    assert_eq!(find_tool(&names, "memory").unwrap(), 1);
    let e = find_tool(&names, "random").unwrap_err();
    assert!(matches!(&e, ChatToolError::ToolNotFound(n) if n == "random"));
    assert_eq!(e.to_string(), "Tool not found: random");
    assert_eq!(ChatToolError::SendChatRequestError("x".to_string()).to_string(), "Error sending chat request: x");
    assert_eq!(ChatToolError::StreamResponseError("y".to_string()).to_string(), "Error streaming response: y");
    assert_eq!(ChatToolError::FetchToolsError("z".to_string()).to_string(), "Error fetching tools: z");
    assert_eq!(
        ChatToolError::AnalyzeDependencyTreeError("w".to_string()).to_string(),
        "Error analyzing dependency tree: w"
    );
}

#[test]
fn cognition_chat_loop_context_only_first() {
    let mut chat = ToolChat::new(Vec::new());
    assert_eq!(chat.on_reply(2), ToolChatAction::CallTools);
    chat.add_tool_result("{\"r\":1}".to_string());
    assert_eq!(chat.messages.len(), 1);
    assert_eq!(chat.messages[0].role, MessageRole::Tool);
    assert_eq!(chat.on_reply(0), ToolChatAction::Forward { with_context: true });
    assert_eq!(chat.on_reply(0), ToolChatAction::Forward { with_context: false });
}
