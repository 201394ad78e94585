use bioma_tool::client::{
    initialize_params, startup_error, Incoming, ModelContextProtocolClientError, RequestTracker, StartupStep, ResponseId, RpcOutcome, ServerConfig,
    TransportConfig, WsConfig as WsClientConfig,
};
use bioma_tool::client_id::ClientId;
use bioma_tool::resources::filesystem::FileSystem;
use bioma_tool::resources::readme::Readme;
use bioma_tool::schema::{Implementation, Prompt, Tool};
use bioma_tool::server::{
    classify_method, complete, CallToolParams, GetPromptParams, InitializeParams, McpDispatcher, McpMethod,
    McpRequest, PromptSlot, ResourceSlot, ServerAction, ServerReply, ToolSlot, WsConfig,
};
use bioma_tool::tools::memory::Memory;
use bioma_tool::tools::random::RandomNumber;
use bioma_tool::utils::ping::{ping_request, ConnectionHealth, PingConfig, PingOutcome};

fn dispatcher() -> McpDispatcher<&'static str, &'static str, &'static str> {
    let resources = vec![
        ResourceSlot { def: Readme::def(), template: None, subscribable: false, handler: "readme" },
        ResourceSlot {
            def: FileSystem::<()>::def(),
            template: FileSystem::<()>::template(),
            subscribable: true,
            handler: "fs",
        },
    ];
    let prompts = vec![PromptSlot {
        def: Prompt { name: "greet".to_string(), description: None, arguments: None },
        handler: "greet",
    }];
    McpDispatcher::new(resources, prompts, "{}".to_string())
}

fn tools() -> Vec<ToolSlot<&'static str>> {
    vec![ToolSlot { def: Memory::def(), handler: "memory" }, ToolSlot { def: RandomNumber::def(), handler: "random" }]
}

#[test]
fn methods_are_classified() {
    assert_eq!(classify_method("initialize"), McpMethod::Initialize);
    assert_eq!(classify_method("tools/call"), McpMethod::ToolsCall);
    assert_eq!(classify_method("resources/templates/list"), McpMethod::ResourceTemplatesList);
    assert_eq!(classify_method("notifications/initialized"), McpMethod::Unknown);
}

#[test]
fn tools_are_listed_per_client_after_initialize() {
    let mut d = dispatcher();
    let c = ClientId(1);
    match d.dispatch(c, true, McpRequest::ToolsList) {
        ServerAction::Reply(ServerReply::Tools(ts)) => assert!(ts.is_empty()),
        _ => panic!("expected an empty tool list"),
    }
    let params = InitializeParams {
        protocol_version: "2024-11-05".to_string(),
        client_info: Implementation { name: "c".to_string(), version: "1".to_string() },
    };
    match d.dispatch(c, true, McpRequest::Initialize { params: Ok(params), tools: tools() }) {
        ServerAction::Reply(ServerReply::Initialized { protocol_version, server_info, instructions, .. }) => {
            assert_eq!(protocol_version, "2024-11-05");
            assert_eq!(server_info.name, "bioma-mcp-server");
            assert_eq!(server_info.version, "0.1.0");
            assert_eq!(instructions.as_deref(), Some("Bioma MCP server"));
        }
        _ => panic!("expected the initialize result"),
    }
    match d.dispatch(c, true, McpRequest::ToolsList) {
        ServerAction::Reply(ServerReply::Tools(ts)) => {
            let names: Vec<&str> = ts.iter().map(|t: &Tool| t.name.as_str()).collect();
            assert_eq!(names, vec!["memory", "random"]);
        }
        _ => panic!("expected the tool list"),
    }
    match d.dispatch(ClientId(2), true, McpRequest::ToolsList) {
        ServerAction::Reply(ServerReply::Tools(ts)) => assert!(ts.is_empty()),
        _ => panic!("expected an empty tool list"),
    }
    match d.dispatch(c, true, McpRequest::ToolsCall(Ok(CallToolParams { name: "random".to_string(), arguments: None }))) {
        ServerAction::CallTool { index, .. } => assert_eq!(d.tool_handler(c, index), Some(&"random")),
        _ => panic!("expected a tool call"),
    }
    match d.dispatch(ClientId(2), true, McpRequest::ToolsCall(Ok(CallToolParams { name: "random".to_string(), arguments: None }))) {
        ServerAction::Fail(e) => assert_eq!(e.code, -32601),
        _ => panic!("expected method not found"),
    }
}

#[test]
fn initialize_with_bad_params_still_registers_tools() {
    let mut d = dispatcher();
    let c = ClientId(9);
    match d.dispatch(c, true, McpRequest::Initialize { params: Err("bad".to_string()), tools: tools() }) {
        ServerAction::Fail(e) => {
            assert_eq!(e.code, -32602);
            assert_eq!(e.message, "bad");
        }
        _ => panic!("expected invalid params"),
    }
    match d.dispatch(c, true, McpRequest::ToolsList) {
        ServerAction::Reply(ServerReply::Tools(ts)) => assert_eq!(ts.len(), 2),
        _ => panic!("expected the tool list"),
    }
}

#[test]
fn resources_are_routed_to_the_first_match() {
    let mut d = dispatcher();
    let c = ClientId(1);
    match d.dispatch(c, true, McpRequest::ResourcesRead(Ok("file:///bioma/README.md".to_string()))) {
        ServerAction::ReadResource { index, uri } => {
            assert_eq!(*d.resource_handler(index), "readme");
            assert_eq!(uri, "file:///bioma/README.md");
        }
        _ => panic!("expected a read"),
    }
    match d.dispatch(c, true, McpRequest::ResourcesRead(Ok("file:///nope".to_string()))) {
        ServerAction::Fail(e) => {
            assert_eq!(e.code, -32602);
            assert_eq!(e.message, "Resource not found: file:///nope");
        }
        _ => panic!("expected resource not found"),
    }
    match d.dispatch(c, true, McpRequest::ResourcesSubscribe(Ok("file:///bioma/README.md".to_string()))) {
        ServerAction::Fail(e) => {
            assert_eq!(e.message, "Resource not found or doesn't support subscription: file:///bioma/README.md")
        }
        _ => panic!("expected no subscription"),
    }
    match d.dispatch(c, true, McpRequest::ResourcesSubscribe(Ok("file:///".to_string()))) {
        ServerAction::SubscribeResource { index, .. } => assert_eq!(*d.resource_handler(index), "fs"),
        _ => panic!("expected a subscription"),
    }
    match d.dispatch(c, true, McpRequest::ResourceTemplatesList) {
        ServerAction::Reply(ServerReply::Templates(ts)) => {
            assert_eq!(ts.len(), 1);
            assert_eq!(ts[0].uri_template, "file:///{path}");
        }
        _ => panic!("expected templates"),
    }
    match d.dispatch(c, true, McpRequest::ResourcesList) {
        ServerAction::Reply(ServerReply::Resources(rs)) => assert_eq!(rs.len(), 2),
        _ => panic!("expected resources"),
    }
}

#[test]
fn prompts_ping_and_unknown_methods() {
    let mut d = dispatcher();
    let c = ClientId(3);
    match d.dispatch(c, true, McpRequest::PromptsGet(Ok(GetPromptParams { name: "greet".to_string(), arguments: None }))) {
        ServerAction::GetPrompt { index, .. } => assert_eq!(*d.prompt_handler(index), "greet"),
        _ => panic!("expected a prompt"),
    }
    match d.dispatch(c, true, McpRequest::PromptsGet(Ok(GetPromptParams { name: "x".to_string(), arguments: None }))) {
        ServerAction::Fail(e) => assert_eq!(e.message, "Method not found"),
        _ => panic!("expected method not found"),
    }
    assert!(matches!(d.dispatch(c, true, McpRequest::Ping), ServerAction::Reply(ServerReply::Empty)));
    match d.dispatch(c, true, McpRequest::Unknown) {
        ServerAction::Fail(e) => assert_eq!(e.code, -32601),
        _ => panic!("expected method not found"),
    }
    match d.dispatch(c, false, McpRequest::Ping) {
        ServerAction::Fail(e) => assert_eq!(e.code, -32600),
        _ => panic!("expected invalid request"),
    }
    let failed: Result<u8, ()> = Err(());
    let e = complete(failed).unwrap_err();
    assert_eq!(e.code, -32603);
    assert_eq!(e.message, "Internal error");
}

#[test]
fn request_ids_increase_and_responses_reach_their_request() {
    let mut t: RequestTracker<&str> = RequestTracker::new();
    let a = t.begin("a");
    let b = t.begin("b");
    assert_eq!((a, b), (1, 2));
    let (s, r) = t.resolve(ResponseId::Num(b), RpcOutcome::Success(7u8)).unwrap();
    assert_eq!(s, "b");
    assert_eq!(r, Ok(7));
    assert!(t.resolve(ResponseId::Num(b), RpcOutcome::Success(8u8)).is_none());
    assert!(t.resolve(ResponseId::Str("1".to_string()), RpcOutcome::Success(8u8)).is_none());
    let (s, r) = t.resolve::<u8>(ResponseId::Num(a), RpcOutcome::Failure("oops".to_string())).unwrap();
    assert_eq!(s, "a");
    assert_eq!(r, Err(ModelContextProtocolClientError::Request("RPC error: oops".to_string())));
    let c = t.begin("c");
    assert_eq!(c, 3);
    assert_eq!(t.timed_out(c), ModelContextProtocolClientError::Request("Request timed out".to_string()));
    let d = t.begin("d");
    assert_eq!(t.send_failed(d, "closed"), ModelContextProtocolClientError::Transport("Send: closed".to_string()));
    assert!(t.resolve(ResponseId::Num(d), RpcOutcome::Success(1u8)).is_none());
}

#[test]
fn client_configuration_defaults() {
    let s = ServerConfig::new("srv".to_string(), TransportConfig::Ws(WsClientConfig::default()));
    assert_eq!(s.version, "0.1.0");
    assert_eq!(s.request_timeout, 5);
    assert_eq!(WsConfig::default().endpoint, "127.0.0.1:9090");
    assert_eq!(WsClientConfig::default().endpoint, "ws://127.0.0.1:9090");
    let p = initialize_params(Implementation { name: "n".to_string(), version: "v".to_string() });
    assert_eq!(p.protocol_version, "2024-11-05");
    assert_eq!(ModelContextProtocolClientError::ClientNotInitialized.to_string(), "MCP Client not initialized");
    assert_eq!(
        ModelContextProtocolClientError::ResponseIdMismatch { expected: 12, actual: "Num(3)".to_string() }.to_string(),
        "Response ID mismatch: expected 12, got Num(3)"
    );
}

#[test]
fn test_connection_health_monitoring() {
    let config = PingConfig { interval_ms: 100, timeout_ms: 50, failure_threshold: 2 };
    let mut health = ConnectionHealth::new(config);
    // The transport cannot send pings: the second failure in a row asks
    // for a reconnection and the count starts again.
    assert!(!health.on_ping_outcome(PingOutcome::SendFailed));
    assert!(health.on_ping_outcome(PingOutcome::SendFailed), "Should have received reconnection signal");
    assert_eq!(health.consecutive_failures(), 0);
}

#[test]
fn ping_timeouts_and_pongs() {
    let config = PingConfig { interval_ms: 100, timeout_ms: 50, failure_threshold: 2 };
    let mut health = ConnectionHealth::new(config);
    assert!(!health.on_ping_outcome(PingOutcome::Timeout));
    assert!(health.on_ping_outcome(PingOutcome::Timeout));
    assert!(!health.on_ping_outcome(PingOutcome::SendFailed));
    assert!(!health.on_ping_outcome(PingOutcome::Pong));
    assert_eq!(health.consecutive_failures(), 0);
}

#[test]
fn ping_defaults_and_request() {
    let c = PingConfig::default();
    assert_eq!((c.interval_ms, c.timeout_ms, c.failure_threshold), (30000, 5000, 3));
    let r = ping_request(1700000000123);
    assert_eq!(r, r#"{"id":1700000000123,"jsonrpc":"2.0","method":"ping","params":{}}"#);
    let expected = serde_json::to_string(&serde_json::from_str::<serde_json::Value>(&r).unwrap()).unwrap();
    assert_eq!(r, expected);
}

#[test]
fn client_messages_and_startup_errors() {
    let mut t: RequestTracker<&str> = RequestTracker::new();
    let a = t.begin("a");
    assert!(t.on_message::<u8>(Incoming::Other).is_none());
    let (s, r) = t.on_message(Incoming::Response(ResponseId::Num(a), RpcOutcome::Success(3u8))).unwrap();
    assert_eq!((s, r), ("a", Ok(3)));
    assert!(t.on_message(Incoming::Response(ResponseId::Num(a), RpcOutcome::Success(3u8))).is_none());
    assert_eq!(
        startup_error(StartupStep::Build, "no route"),
        ModelContextProtocolClientError::Transport("Client new: no route".to_string())
    );
    assert_eq!(
        startup_error(StartupStep::Start, "refused"),
        ModelContextProtocolClientError::Transport("Start: refused".to_string())
    );
}
