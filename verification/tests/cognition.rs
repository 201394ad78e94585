use bioma_tool::cognition::api_schema::{default_retriever_format, default_source, ModelEmbed, RetrieveOutputFormat};
use bioma_tool::cognition::config::Config;
use bioma_tool::cognition::conversation::{
    ask_context_failure, ask_reply, assemble, chat_conversation, context_message, model_request, paired_reply,
    tool_chat_lines, ChatLine, model_request_with_tools, most_relevant_last,
    ndjson_line, retrieval_query, split_system, think_conversation, think_message, tools_list_text, user_query,
    ChatMessage, MessageRole, ToolDescription,
};
use bioma_tool::cognition::health_check::{
    minio_response, ollama_response, probe_url, surrealdb_health_url, HealthCheckError, OllamaHealth, OllamaOutcome,
    OllamaRunningModel, ProbeOutcome, Responses, Service, Status,
};
use bioma_tool::cognition::request_schemas::{
    IndexGlobsRequestSchema, RankTextsRequestSchema, TruncationDirectionRequestSchema,
};
use bioma_tool::cognition::upload::{
    common_top_folder, components_path, embed_plan, embedding_inputs, extracted_entry, extracted_files, file_uploaded,
    upload_destination, zip_uploaded, ArchiveEntry, is_zip_upload, target_folder, text_chunks, upload_error_body,
    upload_message, EmbedPlan, UploadConfig,
};
use bioma_tool::json::JsonValue;

fn msg(role: MessageRole, content: &str) -> ChatMessage {
    ChatMessage { role, content: content.to_string(), images: None }
}

#[test]
fn user_query_joins_user_messages() {
    let ms = vec![msg(MessageRole::User, "a"), msg(MessageRole::Assistant, "b"), msg(MessageRole::User, "c")];
    assert_eq!(user_query(&ms), "a\nc");
    assert_eq!(user_query(&vec![]), "");
}

#[test]
fn conversation_is_assembled_around_the_context() {
    let ms = vec![
        msg(MessageRole::System, "first rules"),
        msg(MessageRole::User, "q1"),
        msg(MessageRole::System, "rules"),
        msg(MessageRole::Assistant, "a1"),
        msg(MessageRole::User, "q2"),
    ];
    let (sys, filtered) = split_system(&ms);
    assert_eq!(sys.as_ref().unwrap().content, "rules");
    let ctx = context_message("CTX", &sys, "PROMPT");
    assert_eq!(ctx.content, "Use the following context to answer the user's query:\nCTX\n\nrules");
    let conv = assemble(&ms, filtered, ctx);
    let texts: Vec<&str> = conv.iter().map(|m| m.content.as_str()).collect();
    assert_eq!(texts, vec!["q1", "a1", "Use the following context to answer the user's query:\nCTX\n\nrules", "q2"]);
    let none = context_message("CTX", &None, "PROMPT:");
    assert_eq!(none.content, "PROMPT:CTX");
    let only = assemble(&vec![], vec![], none);
    assert_eq!(only.len(), 1);
    assert_eq!(only[0].role, MessageRole::System);
}

#[test]
fn think_prompt_lists_tools() {
    let tools = vec![ToolDescription {
        name: "echo".to_string(),
        description: "Echoes".to_string(),
        parameters: r#"{"message":"m"}"#.to_string(),
    }];
    assert_eq!(tools_list_text(&tools), "- echo: Echoes\n  Parameters:\n    {\n      \"message\": \"m\"\n    }");
    let m = think_message("CTX", &None, &tools, "T[{tools_list}]", "CHAT");
    assert_eq!(
        m.content,
        "T[- echo: Echoes\n  Parameters:\n    {\n      \"message\": \"m\"\n    }]\n\nADDITIONAL CONTEXT:\nCTX"
    );
    let m = think_message("CTX", &None, &vec![], "T", "CHAT");
    assert_eq!(m.content, "CHAT\n\nADDITIONAL CONTEXT:\nCTX");
    let bad = vec![ToolDescription { name: "x".to_string(), description: "d".to_string(), parameters: "{".to_string() }];
    assert_eq!(tools_list_text(&bad), "- x: d\n  Parameters:\n    Unable to parse parameters");
}

#[test]
fn ndjson_lines() {
    assert_eq!(ndjson_line(Ok("{\"a\":1}".to_string())), "{\"a\":1}\n");
    assert_eq!(ndjson_line(Err("bad \"x\"".to_string())), "{\"error\":\"bad \\\"x\\\"\"}\n");
}

#[test]
fn config_defaults() {
    let c = Config::default();
    assert_eq!(c.chat_model, "llama3.2-vision");
    assert_eq!(c.think_model, "deepseek-r1:1.5b");
    assert_eq!(c.messages_limit, 10);
    assert_eq!(c.context_length, 4096);
    assert!(c.think_prompt.contains("{tools_list}"));
    assert!(c.chat_prompt.ends_with("answer the user's query:\n\n"));
    assert_eq!(default_source(), "/global");
    assert_eq!(default_retriever_format(), RetrieveOutputFormat::Markdown);
    let r = bioma_tool::rag_server::config::Config::default();
    assert_eq!(r.rag_endpoint, "http://0.0.0.0:5766");
    assert_eq!(r.chat_prompt, c.chat_prompt);
}

#[test]
fn health_responses() {
    assert_eq!(Status::healthy(), Status { is_healthy: true, error: None });
    let running = OllamaHealth { models: vec![OllamaRunningModel { size_vram: 0, model: "m".to_string() }] };
    match ollama_response(OllamaOutcome::Health(running)) {
        Responses::Ollama { status, health: None } => {
            assert_eq!(status.error, Some(HealthCheckError::OllamaError("Ollama is running on CPU".to_string())))
        }
        other => panic!("unexpected {:?}", other),
    }
    let gpu = OllamaHealth { models: vec![OllamaRunningModel { size_vram: 5, model: "m".to_string() }] };
    assert_eq!(
        ollama_response(OllamaOutcome::Health(gpu.clone())),
        Responses::Ollama { status: Status::healthy(), health: Some(gpu) }
    );
    assert_eq!(
        minio_response(ProbeOutcome::ClientError("e".to_string())),
        Responses::Ollama { status: Status::unhealthy(HealthCheckError::ReqwestError("e".to_string())), health: None }
    );
    assert_eq!(minio_response(ProbeOutcome::Reached), Responses::Minio { status: Status::healthy() });
    assert_eq!(HealthCheckError::ParseError("p".to_string()).to_string(), "ParseError: p");
}

#[test]
fn health_probe_urls() {
    assert_eq!(probe_url(Service::Markitdown, "http://h:1").unwrap(), "http://h:1/health");
    assert_eq!(probe_url(Service::OllamaChat, "http://h:1/").unwrap(), "http://h:1/api/ps");
    assert_eq!(probe_url(Service::Minio, "http://127.0.0.1:9000").unwrap(), "http://127.0.0.1:9000/minio/health/live");
    assert_eq!(probe_url(Service::PdfAnalyzer, "http://p").unwrap(), "http://p");
    assert_eq!(surrealdb_health_url("ws://0.0.0.0:9123").unwrap(), "http://0.0.0.0:9123/health");
    assert!(matches!(surrealdb_health_url("nonsense"), Err(HealthCheckError::ParseError(_))));
}

#[test]
fn request_defaults() {
    let g = IndexGlobsRequestSchema {
        globs: vec!["*.rs".to_string()],
        chunk_capacity: None,
        chunk_overlap: None,
        chunk_batch_size: Some(7),
    }
    .into_index_globs();
    assert_eq!((g.chunk_capacity_start, g.chunk_capacity_end, g.chunk_overlap, g.chunk_batch_size), (500, 2000, 200, 7));
    let r = RankTextsRequestSchema {
        query: "q".to_string(),
        raw_scores: None,
        return_text: Some(true),
        texts: vec![],
        truncate: None,
        truncation_direction: None,
    }
    .into_rank_texts();
    assert!(!r.raw_scores && r.return_text && !r.truncate);
    assert_eq!(r.truncation_direction, TruncationDirectionRequestSchema::Right);
}

#[test]
fn uploads() {
    assert_eq!(target_folder("new.zip"), "new");
    assert_eq!(target_folder("a/b.zip"), "a/b");
    assert_eq!(target_folder("uploads"), "uploads");
    assert_eq!(target_folder("doc.txt"), "doc.txt");
    assert!(is_zip_upload(&Some("x.zip".to_string())));
    assert!(!is_zip_upload(&Some("x.zip.txt".to_string())));
    assert!(!is_zip_upload(&None));
    let firsts = vec![Some("generated-api".to_string()), None, Some("generated-api".to_string())];
    assert_eq!(common_top_folder(&firsts), Some("generated-api".to_string()));
    let mixed = vec![Some("a".to_string()), Some("b".to_string())];
    assert_eq!(common_top_folder(&mixed), None);
    assert_eq!(common_top_folder(&vec![None]), None);
    assert_eq!(upload_message(true, 3), "Zip file extracted 3 files successfully");
    assert_eq!(upload_message(false, 1), "File uploaded successfully");
    assert_eq!(upload_error_body("Failed", "why"), r#"{"details":"why","error":"Failed"}"#);
    let c = UploadConfig::default();
    assert_eq!((c.max_file_size, c.max_memory_buffer), (104857600, 52428800));
}

#[test]
fn embeddings_are_batched_by_ten() {
    let texts: Vec<String> = (0..23).map(|i| i.to_string()).collect();
    let chunks = text_chunks(&texts);
    assert_eq!(chunks.iter().map(|c| c.len()).collect::<Vec<_>>(), vec![10, 10, 3]);
    assert_eq!(chunks.concat(), texts);
    assert!(text_chunks(&vec![]).is_empty());
    let inputs = embedding_inputs(JsonValue::Array(vec![
        JsonValue::Str("a".to_string()),
        JsonValue::Number("1".to_string()),
        JsonValue::Str("b".to_string()),
    ]))
    .unwrap();
    assert_eq!(inputs, vec!["a".to_string(), "b".to_string()]);
    assert_eq!(embedding_inputs(JsonValue::Str("x".to_string())).unwrap(), vec!["x".to_string()]);
    assert_eq!(embedding_inputs(JsonValue::Null).unwrap_err(), "Input must be string or array of strings");
    match embed_plan(ModelEmbed::NomicEmbedVisionV15, inputs.clone()) {
        EmbedPlan::Images(v) => assert_eq!(v, inputs),
        other => panic!("unexpected {:?}", other),
    }
}

#[test]
fn think_sends_the_conversation_without_tools() {
    let ms = vec![
        msg(MessageRole::User, "q1"),
        msg(MessageRole::System, "rules"),
        msg(MessageRole::Assistant, "a1"),
        msg(MessageRole::User, "q2"),
    ];
    let q = retrieval_query(&ms, 10, vec!["/global".to_string()]);
    assert_eq!(q.query, "q1\nq2");
    assert_eq!(q.limit, 10);
    assert_eq!(q.sources, vec!["/global".to_string()]);
    let tools = vec![ToolDescription { name: "t".to_string(), description: "d".to_string(), parameters: "{}".to_string() }];
    let conv = think_conversation(&ms, true, "MD", &tools, "TP {tools_list}", "CHAT", None);
    let texts: Vec<&str> = conv.iter().map(|m| m.content.as_str()).collect();
    assert_eq!(
        texts,
        vec!["q1", "a1", "Use the following context to answer the user's query:\nNo additional context available\n\nrules", "q2"]
    );
    assert_eq!(conv[2].role, MessageRole::System);
    let r = model_request(conv, true, None);
    assert!(r.restart && !r.persist && r.stream && r.tools.is_none() && r.format.is_none());
    assert_eq!(r.messages.len(), 4);
    let plain = vec![msg(MessageRole::User, "hi")];
    let conv = think_conversation(&plain, false, "MD", &vec![], "TP", "CHAT", Some("img".to_string()));
    assert_eq!(conv.len(), 2);
    assert_eq!(conv[0].content, "CHAT\n\nADDITIONAL CONTEXT:\nMD");
    assert_eq!(conv[0].images, Some(vec!["img".to_string()]));
    assert_eq!(conv[1].content, "hi");
}

#[test]
fn chat_puts_the_most_relevant_context_last() {
    assert_eq!(most_relevant_last(vec![1, 2, 3]), vec![3, 2, 1]);
    assert_eq!(most_relevant_last(Vec::<u8>::new()), Vec::<u8>::new());
    let ms = vec![msg(MessageRole::Assistant, "a0"), msg(MessageRole::User, "q")];
    let conv = chat_conversation(&ms, "CTX", "PROMPT:", None);
    let texts: Vec<&str> = conv.iter().map(|m| m.content.as_str()).collect();
    assert_eq!(texts, vec!["a0", "PROMPT:CTX", "q"]);
    let tools = vec![ToolDescription { name: "t".to_string(), description: "d".to_string(), parameters: "{}".to_string() }];
    let r = model_request_with_tools(conv, tools, Some("{\"type\":\"object\"}".to_string()));
    assert!(r.restart && !r.persist && !r.stream);
    assert_eq!(r.tools.as_ref().map(|t| t.len()), Some(1));
    assert_eq!(r.format.as_deref(), Some("{\"type\":\"object\"}"));
}

#[test]
fn zip_entries_lose_their_shared_top_folder() {
    let v = |xs: &[&str]| xs.iter().map(|x| x.to_string()).collect::<Vec<String>>();
    let top = Some("proj".to_string());
    let target = v(&["uploads", "archive"]);
    assert_eq!(extracted_entry(&v(&["proj", "src", "a.rs"]), false, &top, &target), Some(v(&["uploads", "archive", "src", "a.rs"])));
    assert_eq!(extracted_entry(&v(&["other", "b.md"]), false, &top, &target), Some(v(&["uploads", "archive", "other", "b.md"])));
    assert_eq!(extracted_entry(&v(&["proj", "src"]), true, &top, &target), None);
    assert_eq!(extracted_entry(&v(&["c.txt"]), false, &None, &target), Some(v(&["uploads", "archive", "c.txt"])));
}

#[test]
fn zip_listing_skips_directories_and_the_shared_folder() {
    let v = |xs: &[&str]| xs.iter().map(|x| x.to_string()).collect::<Vec<String>>();
    let e = |xs: &[&str], is_dir: bool| ArchiveEntry { components: v(xs), is_dir };
    let target = v(&["docs"]);
    let shared = vec![e(&["proj"], true), e(&["proj", "a.md"], false), e(&["proj", "sub", "b.md"], false)];
    assert_eq!(extracted_files(&shared, &target), vec![v(&["docs", "a.md"]), v(&["docs", "sub", "b.md"])]);
    let mixed = vec![e(&["x", "a.md"], false), e(&["y", "b.md"], false)];
    assert_eq!(extracted_files(&mixed, &target), vec![v(&["docs", "x", "a.md"]), v(&["docs", "y", "b.md"])]);
    assert_eq!(extracted_files(&vec![], &target), Vec::<Vec<String>>::new());
}

#[test]
fn replies_pair_the_answer_with_the_conversation_sent() {
    let conv = vec![msg(MessageRole::System, "ctx"), msg(MessageRole::User, "q")];
    let req = model_request(conv, false, Some("{}".to_string()));
    assert_eq!(req.format.as_deref(), Some("{}"));
    let pair = paired_reply(&req, 5u8);
    assert_eq!(pair.response, 5);
    let texts: Vec<&str> = pair.context.iter().map(|m| m.content.as_str()).collect();
    assert_eq!(texts, vec!["ctx", "q"]);
    let lines = tool_chat_lines(&req, Ok::<u8, String>(9));
    assert_eq!(lines.len(), 1);
    match &lines[0] {
        ChatLine::Answer(a) => {
            assert_eq!(a.response, 9);
            assert_eq!(a.context.len(), 2);
        }
        ChatLine::Error(e) => panic!("unexpected error {}", e),
    }
    let lines = tool_chat_lines::<u8>(&req, Err("down".to_string()));
    assert_eq!(lines.len(), 1);
    assert!(matches!(&lines[0], ChatLine::Error(e) if e == "down"));
    let ok = ask_reply(&req, Ok::<u8, String>(1));
    assert_eq!(ok.status, 200);
    assert_eq!(ok.body.as_ref().map(|a| a.context.len()).ok(), Some(2));
    let failed = ask_reply::<u8>(&req, Err("timeout".to_string()));
    assert_eq!(failed.status, 500);
    assert_eq!(failed.body.err(), Some("Error fetching ask response: timeout".to_string()));
    let no_context = ask_context_failure::<u8>("no store");
    assert_eq!(no_context.status, 500);
    assert_eq!(no_context.body.err(), Some("Error fetching context: no store".to_string()));
}

#[test]
fn single_uploads_go_under_their_own_name() {
    let dest = upload_destination("uploads", &Some("document.txt".to_string()));
    assert_eq!(dest, "uploads/document.txt");
    assert_eq!(upload_destination("uploads/", &Some("a.md".to_string())), "uploads/a.md");
    assert_eq!(upload_destination("uploads", &None), "uploads");
    let u = file_uploaded(dest, 12);
    assert_eq!(u.message, "File uploaded successfully");
    assert_eq!(u.paths, vec!["uploads/document.txt".to_string()]);
    assert_eq!(u.size, 12);
    let v = |xs: &[&str]| xs.iter().map(|x| x.to_string()).collect::<Vec<String>>();
    assert_eq!(components_path(&v(&["new", "index.ts"])), "new/index.ts");
    let z = zip_uploaded(&vec![v(&["new", "index.ts"]), v(&["new", "api.ts"])], 5120);
    assert_eq!(z.message, "Zip file extracted 2 files successfully");
    assert_eq!(z.paths, vec!["new/index.ts".to_string(), "new/api.ts".to_string()]);
    assert_eq!(z.size, 5120);
}
