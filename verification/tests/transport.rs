use bioma_tool::client::SseConfig as SseClientConfig;
use bioma_tool::client_id::ClientId;
use bioma_tool::json::JsonRpcMessage;
use bioma_tool::server::SseConfig as SseServerConfig;
use bioma_tool::transport::sse::{
    answer_request, client_endpoint_url, endpoint_event, route_request, shutdown_event, split_events, HttpMethod, SseClientAction,
    SseClientState, SseError, SseEvent, SseRoute, Shutdown,
};
use bioma_tool::transport::stdio::{decode_line, frame_message, split_lines, StdioError};
use bioma_tool::transport::ws::{client_id_message, handle_frame, send_failed, FrameAction, WsError, WsFrame};
use bioma_tool::transport::ClientSenders;

const MESSAGE: &str = r#"{"jsonrpc":"2.0","method":"test","params":{},"id":1}"#;

#[test]
fn test_client_id() {
    let id1 = ClientId::new();
    let id2 = ClientId::new();
    assert_ne!(id1, id2, "Generated IDs should be unique");
    let id_str = id1.to_string();
    assert!(!id_str.is_empty(), "ID string should not be empty");
    assert_eq!(id_str.len(), 36, "Client ID should be a UUID (36 chars)");
    let id1_clone = id1.clone();
    assert_eq!(id1, id1_clone, "Cloned ID should equal original");
}

#[test]
fn client_id_text_round_trips() {
    let id = ClientId(0x0123456789abcdef0011223344556677);
    assert_eq!(id.to_string(), "01234567-89ab-cdef-0011-223344556677");
    assert_eq!(ClientId::parse_str("01234567-89ab-cdef-0011-223344556677"), Some(id));
    assert_eq!(ClientId::parse_str("not a uuid"), None);
}

#[test]
fn test_sse_event() {
    let json_rpc_message = JsonRpcMessage::from_text(MESSAGE).unwrap();
    let event = SseEvent::Message(json_rpc_message.clone());
    let event_str = event.to_sse_string();
    assert!(event_str.contains("event: message"), "Event type should be 'message'");

    let endpoint = "http://example.com";
    let endpoint_event = SseEvent::Endpoint(endpoint.to_string());
    let endpoint_str = endpoint_event.to_sse_string();
    assert!(endpoint_str.contains("event: endpoint"), "Event type should be 'endpoint'");
    assert!(endpoint_str.contains(endpoint), "Event should contain the endpoint URL");

    let shutdown_event = SseEvent::Shutdown(Shutdown { reason: "test shutdown".to_string() });
    let shutdown_str = shutdown_event.to_sse_string();
    assert!(shutdown_str.contains("event: shutdown"), "Event type should be 'shutdown'");
    assert!(shutdown_str.contains("test shutdown"), "Event should contain the shutdown reason");
}

#[test]
fn sse_event_exact_frames() {
    let e = SseEvent::Endpoint("http://a/b\"c".to_string());
    assert_eq!(e.to_sse_string(), "event: endpoint\ndata: \"http://a/b\\\"c\"\n\n");
    let s = SseEvent::Shutdown(Shutdown { reason: "bye".to_string() });
    assert_eq!(s.to_sse_string(), "event: shutdown\ndata: {\"reason\":\"bye\"}\n\n");
    let m = SseEvent::Message(JsonRpcMessage::from_text(MESSAGE).unwrap());
    assert_eq!(m.to_sse_string(), format!("event: message\ndata: {}\n\n", MESSAGE));
}

#[test]
fn test_sse_event_parsing() {
    let event_str = format!("event: message\ndata: {}\n\n", MESSAGE);
    let parsed = SseEvent::from_sse_string(&event_str).unwrap().unwrap();
    assert!(matches!(parsed, SseEvent::Message(_)), "Should parse as message event");

    let endpoint = "http://example.com";
    let event_str = format!("event: endpoint\ndata: \"{}\"\n\n", endpoint);
    let parsed = SseEvent::from_sse_string(&event_str).unwrap().unwrap();
    assert!(matches!(parsed, SseEvent::Endpoint(_)), "Should parse as endpoint event");

    let event_str = "event: shutdown\ndata: {\"reason\":\"test shutdown\"}\n\n";
    let parsed = SseEvent::from_sse_string(event_str).unwrap().unwrap();
    assert!(matches!(parsed, SseEvent::Shutdown(_)), "Should parse as shutdown event");

    let invalid_event = "invalid event format\n\n";
    let parsed = SseEvent::from_sse_string(invalid_event).unwrap();
    assert!(parsed.is_none(), "Should return None for invalid event");
}

#[test]
fn sse_parse_errors_and_values() {
    assert_eq!(SseEvent::from_sse_string("event: message\ndata: nope\n\n").unwrap_err(), SseError::InvalidMessage);
    assert_eq!(SseEvent::from_sse_string("event: shutdown\ndata: {}\n\n").unwrap_err(), SseError::InvalidShutdown);
    match SseEvent::from_sse_string("event: endpoint\r\ndata: \"http://x/sse/1\"\r\n\r\n").unwrap() {
        Some(SseEvent::Endpoint(u)) => assert_eq!(u, "http://x/sse/1"),
        other => panic!("unexpected {:?}", other),
    }
    match SseEvent::from_sse_string("event: shutdown\ndata: {\"reason\":\"done\"}\n\n").unwrap() {
        Some(SseEvent::Shutdown(s)) => assert_eq!(s.reason, "done"),
        other => panic!("unexpected {:?}", other),
    }
    assert!(SseEvent::from_sse_string("event: other\ndata: 1\n\n").unwrap().is_none());
}

#[test]
fn sse_frames_round_trip() {
    let e = SseEvent::Endpoint("http://127.0.0.1:8090/sse/abc".to_string());
    match SseEvent::from_sse_string(&e.to_sse_string()).unwrap() {
        Some(SseEvent::Endpoint(u)) => assert_eq!(u, "http://127.0.0.1:8090/sse/abc"),
        other => panic!("unexpected {:?}", other),
    }
}

#[test]
fn split_events_keeps_rest() {
    let (events, rest) = split_events("event: a\ndata: 1\n\nevent: b\ndata: 2\n\nevent: c");
    assert_eq!(events, vec!["event: a\ndata: 1\n\n".to_string(), "event: b\ndata: 2\n\n".to_string()]);
    assert_eq!(rest, "event: c");
}

#[test]
fn sse_client_state_machine() {
    let mut state = SseClientState::new();
    assert!(state.message_url().is_err());
    match state.on_event(SseEvent::Endpoint("http://h/sse/1".to_string())) {
        SseClientAction::EndpointSet { notify } => assert!(notify),
        other => panic!("unexpected {:?}", other),
    }
    match state.on_event(SseEvent::Endpoint("http://h/sse/2".to_string())) {
        SseClientAction::EndpointSet { notify } => assert!(!notify),
        other => panic!("unexpected {:?}", other),
    }
    assert_eq!(state.message_url().unwrap(), "http://h/sse/2");
    match state.on_event(SseEvent::Shutdown(Shutdown { reason: "r".to_string() })) {
        SseClientAction::Stop { reason } => assert_eq!(reason, "r"),
        other => panic!("unexpected {:?}", other),
    }
}

#[test]
fn sse_routes() {
    let id = ClientId(0xabcdef);
    let url = client_endpoint_url("127.0.0.1:8090", id);
    assert_eq!(url, format!("http://127.0.0.1:8090/sse/{}", id.to_string()));
    assert_eq!(route_request(HttpMethod::Get, "/"), SseRoute::Connect);
    assert_eq!(route_request(HttpMethod::Post, &format!("/sse/{}", id.to_string())), SseRoute::ClientMessage(id));
    assert_eq!(route_request(HttpMethod::Post, "/sse/xyz"), SseRoute::BadRequest);
    assert_eq!(route_request(HttpMethod::Get, "/other"), SseRoute::NotFound);
    assert_eq!(route_request(HttpMethod::Other, "/"), SseRoute::NotFound);
    match endpoint_event("h:1", id) {
        SseEvent::Endpoint(u) => assert!(u.ends_with(&id.to_string())),
        other => panic!("unexpected {:?}", other),
    }
    match shutdown_event() {
        SseEvent::Shutdown(s) => assert_eq!(s.reason, "Server is shutting down"),
        other => panic!("unexpected {:?}", other),
    }
}

#[test]
fn client_senders_registry() {
    let mut clients: ClientSenders<u32> = ClientSenders::new();
    let a = ClientId(1);
    let b = ClientId(2);
    clients.register(a, 10);
    clients.register(b, 20);
    clients.register(a, 11);
    assert_eq!(clients.get(a), Some(&11));
    assert_eq!(bioma_tool::transport::sse::sender_for(&clients, ClientId(3)).unwrap_err(), SseError::ClientNotFound);
    assert_eq!(clients.unregister(b), Some(20));
    assert_eq!(clients.get(b), None);
    let drained = clients.drain();
    assert_eq!(drained, vec![(a, 11)]);
}

#[test]
fn test_server_config() {
    let default_config = SseServerConfig::default();
    assert_eq!(default_config.endpoint, "127.0.0.1:8090/sse");
    assert_eq!(default_config.channel_capacity, 32);
    assert!(default_config.keep_alive);
    let custom_config =
        SseServerConfig { endpoint: "127.0.0.1:9090".to_string(), channel_capacity: 64, keep_alive: false };
    assert_eq!(custom_config.endpoint, "127.0.0.1:9090");
    assert_eq!(custom_config.channel_capacity, 64);
    assert!(!custom_config.keep_alive);
}

#[test]
fn test_client_config() {
    let default_config = SseClientConfig::default();
    assert_eq!(default_config.endpoint, "http://127.0.0.1:8090/sse");
    assert_eq!(default_config.retry_count, 3);
    assert_eq!(default_config.retry_delay_ms, 5000);
    let custom_config = SseClientConfig { endpoint: "127.0.0.1:9090".to_string(), retry_count: 5, retry_delay_ms: 2000 };
    assert_eq!(custom_config.endpoint, "127.0.0.1:9090");
    assert_eq!(custom_config.retry_count, 5);
    assert_eq!(custom_config.retry_delay_ms, 2000);
}

#[test]
fn stdio_framing_round_trips() {
    let m = JsonRpcMessage::from_text(MESSAGE).unwrap();
    let framed = frame_message(&m);
    assert_eq!(framed, format!("{}\n", MESSAGE));
    let (lines, rest) = split_lines(&format!("{}{}partial", framed, framed.replace('\n', "\r\n")));
    assert_eq!(lines, vec![MESSAGE.to_string(), MESSAGE.to_string()]);
    assert_eq!(rest, "partial");
    assert_eq!(decode_line(&lines[0]).unwrap().text, MESSAGE);
    assert_eq!(decode_line("{oops").unwrap_err(), StdioError::InvalidMessage);
}

#[test]
fn stdin_frames_skip_empty_messages() {
    assert_eq!(bioma_tool::transport::client::stdin_frame(""), None);
    assert_eq!(bioma_tool::transport::client::stdin_frame("{}"), Some("{}\n".to_string()));
}

#[test]
fn ws_frames_and_messages() {
    match handle_frame(WsFrame::Text(MESSAGE.to_string())) {
        FrameAction::Deliver(m) => assert_eq!(m.text, MESSAGE),
        other => panic!("unexpected {:?}", other),
    }
    assert!(matches!(handle_frame(WsFrame::Text("nope".to_string())), FrameAction::Malformed));
    assert!(matches!(handle_frame(WsFrame::Close), FrameAction::Stop));
    assert!(matches!(handle_frame(WsFrame::Ping), FrameAction::Ignore));
    let id = ClientId(5);
    assert_eq!(client_id_message(id), format!("{{\"clientId\":\"{}\"}}", id.to_string()));
    let parsed: serde_json::Value = serde_json::from_str(&client_id_message(id)).unwrap();
    assert_eq!(parsed["clientId"], id.to_string());
    match send_failed(id) {
        WsError::SendError(m) => assert_eq!(m, format!("Failed to send message to client {}", id.to_string())),
        other => panic!("unexpected {:?}", other),
    }
    assert_eq!(WsError::ClientNotFound(id).to_string(), format!("Client not found: {}", id.to_string()));
}

#[test]
fn sse_messages_are_written_as_serde_writes_them() {
    let spaced = "{ \"jsonrpc\": \"2.0\",\n \"method\": \"test\", \"params\": {}, \"id\": 1 }";
    let m = JsonRpcMessage::from_text(spaced).unwrap();
    let s = SseEvent::Message(m).to_sse_string();
    assert_eq!(s, format!("event: message\ndata: {}\n\n", MESSAGE));
    match SseEvent::from_sse_string(&s).unwrap().unwrap() {
        SseEvent::Message(back) => assert_eq!(back.text, MESSAGE),
        other => panic!("unexpected {:?}", other),
    }
}

#[test]
fn sse_shutdown_round_trips() {
    let reason = "line one\nline \"two\"";
    let s = SseEvent::Shutdown(Shutdown { reason: reason.to_string() }).to_sse_string();
    match SseEvent::from_sse_string(&s).unwrap().unwrap() {
        SseEvent::Shutdown(back) => assert_eq!(back.reason, reason),
        other => panic!("unexpected {:?}", other),
    }
}

#[test]
fn sse_posts_are_answered_and_forwarded() {
    let id = ClientId(0x42);
    let path = format!("/sse/{}", id.to_string());
    let reply = answer_request(HttpMethod::Post, &path, MESSAGE);
    assert_eq!(reply.status, 200);
    let fwd = reply.forward.expect("a JSON-RPC body is forwarded");
    assert_eq!(fwd.client_id, id);
    assert_eq!(fwd.message.text, MESSAGE);
    let junk = answer_request(HttpMethod::Post, &path, "not json");
    assert_eq!(junk.status, 200);
    assert!(junk.forward.is_none());
    let connect = answer_request(HttpMethod::Get, "/", "");
    assert_eq!(connect.status, 200);
    assert!(connect.forward.is_none());
    assert_eq!(answer_request(HttpMethod::Post, "/sse/nope", MESSAGE).status, 400);
    assert_eq!(answer_request(HttpMethod::Get, "/elsewhere", MESSAGE).status, 404);
}

#[test]
fn sse_responses_keep_their_result() {
    let response = r#"{"jsonrpc":"2.0","result":{"ok":true},"id":3}"#;
    let m = JsonRpcMessage::from_text(response).unwrap();
    let s = SseEvent::Message(m).to_sse_string();
    assert_eq!(s, format!("event: message\ndata: {}\n\n", response));
}
