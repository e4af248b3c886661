use std::collections::HashMap;

use gemini_client::backend::{GeminiApiModel, GeminiClient, GeminiVertexModel};
use gemini_client::builder::{ModelRequest, ModelRequestBuilder};
use gemini_client::conversation::{FunctionCall, Message, Role, Settings, Tool, ToolProperty};
use gemini_client::response::{
    decode_completion, Candidate, DecodeError, GeminiFunction, GeminiResponse, ResponseContent,
    ResponsePart, UsageMetadata,
};
use gemini_client::stream::{frame_payload, response_events, StreamDecoder, StreamEvent};
use gemini_client::text::contains_text;
use gemini_client::wire::{compile_request, model_supports_thinking, GeminiModel, ThinkingConfig};
use serde_json::Value;

fn text_part(t: &str) -> ResponsePart {
    ResponsePart { text: Some(t.to_string()), function_call: None }
}

fn call_part(name: &str, arg: &str) -> ResponsePart {
    let mut args = HashMap::new();
    args.insert("city".to_string(), Value::String(arg.to_string()));
    ResponsePart { text: None, function_call: Some(GeminiFunction { name: name.to_string(), args }) }
}

fn candidate(parts: Vec<ResponsePart>) -> Candidate {
    Candidate {
        content: ResponseContent { parts, role: Some("model".to_string()) },
        finish_reason: None,
        index: Some(0),
    }
}

fn usage(p: Option<i32>, c: Option<i32>, t: Option<i32>) -> Option<UsageMetadata> {
    Some(UsageMetadata { prompt_token_count: p, candidates_token_count: c, total_token_count: t })
}

fn empty_request() -> ModelRequest {
    ModelRequest { system: None, messages: None, settings: None, tools: None }
}

#[test]
fn compiles_the_end_to_end_request() {
    let request = ModelRequest {
        system: Some("you are helpful".to_string()),
        messages: Some(vec![Message::user("hi".to_string())]),
        settings: Some(Settings { max_tokens: Some(100), timeout: None, temperature: Some(0), thinking_budget: None }),
        tools: None,
    };
    let wire = compile_request(&request, "gemini-2.5-flash");
    assert_eq!(wire.generation_config.thinking_config, Some(ThinkingConfig { thinking_budget: 0 }));
    assert_eq!(wire.generation_config.max_output_tokens, Some(100));
    assert_eq!(wire.generation_config.temperature, 0);
    assert_eq!(wire.contents.len(), 1);
    assert_eq!(wire.contents[0].role, Role::User);
    assert_eq!(wire.contents[0].role.wire_name(), "user");
    assert_eq!(wire.contents[0].parts.len(), 1);
    assert_eq!(wire.contents[0].parts[0].text, "hi");
    let system = wire.system_instruction.unwrap();
    assert_eq!(system.parts[0].text, "you are helpful");
    assert!(wire.tools.is_none());
}

#[test]
fn older_models_get_no_thinking_block() {
    let settings = Settings { max_tokens: None, timeout: None, temperature: None, thinking_budget: Some(512) };
    for model in ["gemini-1.5-pro", "gemini-2.0-flash", "x2.0"] {
        let mut request = empty_request();
        request.settings = Some(settings);
        let wire = compile_request(&request, model);
        assert!(wire.generation_config.thinking_config.is_none(), "{}", model);
    }
    for model in ["gemini-2.5-pro", "gemini-1.0", "2.", ""] {
        let mut request = empty_request();
        request.settings = Some(settings);
        let wire = compile_request(&request, model);
        assert_eq!(wire.generation_config.thinking_config, Some(ThinkingConfig { thinking_budget: 512 }), "{}", model);
    }
    assert!(!model_supports_thinking("gemini-1.5-flash"));
    assert!(model_supports_thinking("gemini-2.5-flash"));
}

#[test]
fn absent_fields_take_defaults() {
    let wire = compile_request(&empty_request(), "gemini-2.5-flash");
    assert!(wire.system_instruction.is_none());
    assert!(wire.contents.is_empty());
    assert_eq!(wire.generation_config.max_output_tokens, None);
    assert_eq!(wire.generation_config.temperature, 0);
    assert_eq!(wire.generation_config.thinking_config, Some(ThinkingConfig { thinking_budget: 0 }));
    assert!(wire.tools.is_none());
}

#[test]
fn a_message_without_role_is_sent_as_the_users() {
    let mut request = empty_request();
    request.messages = Some(vec![
        Message { content: "a".to_string(), role: None },
        Message::model("b".to_string()),
    ]);
    let wire = compile_request(&request, "gemini-2.5-flash");
    assert_eq!(wire.contents[0].role, Role::User);
    assert_eq!(wire.contents[1].role, Role::Model);
    assert_eq!(wire.contents[1].role.wire_name(), "model");
    assert_eq!(wire.contents[1].parts[0].text, "b");
}

#[test]
fn tools_are_sent_as_one_group() {
    let mut request = empty_request();
    request.tools = Some(vec![]);
    assert!(compile_request(&request, "m").tools.is_none());
    request.tools = Some(vec![
        Tool::new("a".to_string(), "first".to_string()),
        Tool::new("b".to_string(), "second".to_string()),
    ]);
    let groups = compile_request(&request, "m").tools.unwrap();
    assert_eq!(groups.len(), 1);
    assert_eq!(groups[0].function_declarations.len(), 2);
    assert_eq!(groups[0].function_declarations[1].name, "b");
}

#[test]
fn searches_text() {
    assert!(contains_text("gemini-1.5-pro", "1.5"));
    assert!(!contains_text("gemini-1.50", "2.0"));
    assert!(contains_text("abc", ""));
    assert!(!contains_text("", "a"));
    assert!(contains_text("ééa", "éa"));
    assert!(!contains_text("1.", "1.5"));
}

#[test]
fn batches_and_single_messages_accumulate_alike() {
    let model = ();
    let mut batched = ModelRequestBuilder::new(&model);
    batched.with_messages(vec![Message::user("a".to_string()), Message::user("b".to_string())]);
    batched.with_message(Message::user("c".to_string()));
    let mut single = ModelRequestBuilder::new(&model);
    single.with_message(Message::user("a".to_string()));
    single.with_message(Message::user("b".to_string()));
    single.with_message(Message::user("c".to_string()));
    assert_eq!(batched.messages, single.messages);
    assert_eq!(single.messages.unwrap().len(), 3);
}

#[test]
fn tools_accumulate_in_order() {
    let model = ();
    let mut builder = ModelRequestBuilder::new(&model);
    builder.with_tool(Tool::new("a".to_string(), "x".to_string()));
    builder.with_tools(vec![Tool::new("b".to_string(), "y".to_string()), Tool::new("c".to_string(), "z".to_string())]);
    let names: Vec<String> = builder.tools.unwrap().into_iter().map(|t| t.name).collect();
    assert_eq!(names, vec!["a", "b", "c"]);
}

#[test]
fn snapshot_is_not_touched_by_later_changes() {
    let model = ();
    let mut builder = ModelRequestBuilder::new(&model);
    builder.with_system("one".to_string()).with_message(Message::user("x".to_string()));
    let request = builder.to_model_request();
    builder.with_system("two".to_string()).with_message(Message::user("y".to_string()));
    assert_eq!(request.system, Some("one".to_string()));
    assert_eq!(request.messages.unwrap().len(), 1);
    assert_eq!(builder.messages.unwrap().len(), 2);
}

#[test]
fn first_parameter_declaration_wins() {
    let tool = Tool::new("get_weather".to_string(), "Get the weather for a city".to_string())
        .with_parameter("city".to_string(), "string".to_string(), "the city".to_string(), true);
    let params = tool.parameters.clone().unwrap();
    assert_eq!(
        params.properties,
        vec![ToolProperty { name: "city".to_string(), kind: "string".to_string(), description: "the city".to_string() }]
    );
    assert_eq!(params.required, vec!["city".to_string()]);
    let again = tool.clone().with_parameter("day".to_string(), "string".to_string(), "the day".to_string(), false);
    assert_eq!(again, tool);

    let optional = Tool::new("t".to_string(), "d".to_string())
        .with_parameter("day".to_string(), "string".to_string(), "the day".to_string(), false);
    assert!(optional.parameters.unwrap().required.is_empty());
}

#[test]
fn function_messages_carry_json() {
    let msg = Message::function_result("search".to_string(), vec!["result1", "result2"]);
    assert_eq!(msg.content, "search: [\"result1\",\"result2\"]");
    let mut args = HashMap::new();
    args.insert("query".to_string(), Value::String("test".to_string()));
    let msg = Message::function_call(FunctionCall { name: "search".to_string(), args });
    assert_eq!(msg.content, "search({\"query\":\"test\"})");
}

#[test]
fn decodes_a_complete_response() {
    let response = GeminiResponse {
        candidates: vec![
            candidate(vec![text_part("Hello"), call_part("first", "a"), text_part(", world"), call_part("second", "b")]),
            candidate(vec![text_part("ignored")]),
        ],
        usage_metadata: usage(Some(10), Some(5), Some(15)),
    };
    let completion = decode_completion(&response).unwrap();
    assert_eq!(completion.completion, "Hello, world");
    assert_eq!(completion.prompt_tokens, 10);
    assert_eq!(completion.completion_tokens, 5);
    assert_eq!(completion.total_tokens, 15);
    let call = completion.function.unwrap();
    assert_eq!(call.name, "second");
    assert_eq!(call.args.get("city"), Some(&Value::String("b".to_string())));
}

#[test]
fn empty_candidates_give_no_completion() {
    let response = GeminiResponse { candidates: vec![], usage_metadata: usage(Some(1), Some(1), Some(2)) };
    assert_eq!(decode_completion(&response).unwrap_err(), DecodeError::NoCompletion);
    assert_eq!(DecodeError::NoCompletion.message(), "no completion produced");
    assert!(response.get_text().is_none());
    assert!(response.get_function().is_none());
}

#[test]
fn each_missing_count_is_named() {
    let cases = [
        (usage(None, Some(1), Some(2)), DecodeError::MissingPromptTokens, "missing prompt tokens"),
        (usage(Some(1), None, Some(2)), DecodeError::MissingCompletionTokens, "missing completion tokens"),
        (usage(Some(1), Some(1), None), DecodeError::MissingTotalTokens, "missing total tokens"),
        (None, DecodeError::MissingPromptTokens, "missing prompt tokens"),
    ];
    for (usage_metadata, error, message) in cases {
        let response = GeminiResponse { candidates: vec![candidate(vec![text_part("x")])], usage_metadata };
        let e = decode_completion(&response).unwrap_err();
        assert_eq!(e, error);
        assert_eq!(e.message(), message);
    }
}

#[test]
fn a_candidate_without_text_decodes_to_empty_text() {
    let response = GeminiResponse {
        candidates: vec![candidate(vec![call_part("f", "x")])],
        usage_metadata: usage(Some(1), Some(2), Some(3)),
    };
    let completion = decode_completion(&response).unwrap();
    assert_eq!(completion.completion, "");
    assert_eq!(completion.function.unwrap().name, "f");
    assert_eq!(response.get_prompt_tokens(), Some(1));
    assert_eq!(response.get_completion_tokens(), Some(2));
    assert_eq!(response.get_total_tokens(), Some(3));
}

#[test]
fn frame_arrives_in_two_chunks() {
    let mut decoder = StreamDecoder::new();
    let first = decoder.push_chunk(b"data: {\"candidates\":[]}\n");
    assert!(first.is_empty());
    assert_eq!(decoder.buffer, b"data: {\"candidates\":[]}\n".to_vec());
    let second = decoder.push_chunk(b"\n");
    assert_eq!(second, vec!["{\"candidates\":[]}".to_string()]);
    assert!(decoder.buffer.is_empty());
}

#[test]
fn text_and_usage_give_delta_then_usage() {
    let response = GeminiResponse {
        candidates: vec![candidate(vec![text_part("Hi")])],
        usage_metadata: usage(Some(3), Some(1), Some(4)),
    };
    let mut decoder = StreamDecoder::new();
    let events = decoder.accept_payload(Ok(response));
    assert_eq!(events.len(), 2);
    assert!(matches!(&events[0], StreamEvent::Delta(t) if t == "Hi"));
    assert!(matches!(events[1], StreamEvent::Usage { prompt_tokens: 3, completion_tokens: 1, total_tokens: 4 }));
}

#[test]
fn usage_with_empty_text_gives_no_delta() {
    let response = GeminiResponse {
        candidates: vec![candidate(vec![text_part("")])],
        usage_metadata: usage(Some(3), Some(1), Some(4)),
    };
    let events = response_events(&response);
    assert_eq!(events.len(), 1);
    assert!(matches!(events[0], StreamEvent::Usage { .. }));
    let partial = GeminiResponse {
        candidates: vec![candidate(vec![text_part("a"), call_part("f", "x")])],
        usage_metadata: usage(Some(3), None, Some(4)),
    };
    let events = response_events(&partial);
    assert_eq!(events.len(), 2);
    assert!(matches!(&events[0], StreamEvent::Delta(t) if t == "a"));
    assert!(matches!(&events[1], StreamEvent::FunctionCall(f) if f.name == "f"));
}

#[test]
fn malformed_payload_ends_the_stream() {
    let mut decoder = StreamDecoder::new();
    let payloads = decoder.push_chunk(b"data: {not json\n\ndata: {\"candidates\":[]}\n\n");
    assert_eq!(payloads.len(), 2);
    let events = decoder.accept_payload(Err("expected value".to_string()));
    assert_eq!(events.len(), 1);
    assert!(matches!(&events[0], StreamEvent::Error(m) if m == "expected value"));
    let ok = GeminiResponse { candidates: vec![candidate(vec![text_part("late")])], usage_metadata: None };
    assert!(decoder.accept_payload(Ok(ok)).is_empty());
    assert!(decoder.push_chunk(b"data: {}\n\n").is_empty());
    assert!(decoder.fail("closed".to_string()).is_empty());
}

#[test]
fn transport_failure_gives_one_error() {
    let mut decoder = StreamDecoder::new();
    let events = decoder.fail("connection reset".to_string());
    assert_eq!(events.len(), 1);
    assert!(matches!(&events[0], StreamEvent::Error(m) if m == "connection reset"));
    assert!(decoder.halted);
    assert!(decoder.fail("again".to_string()).is_empty());
}

#[test]
fn frames_without_data_lines_are_skipped() {
    let mut decoder = StreamDecoder::new();
    let payloads = decoder.push_chunk(b": keep-alive\n\nevent: x\ndata: a\ndata: b\n\ndata: \n\ndata: tail");
    assert_eq!(payloads, vec!["ab".to_string()]);
    assert_eq!(decoder.buffer, b"data: tail".to_vec());
    decoder.finish();
    assert!(decoder.buffer.is_empty());
    assert!(!decoder.halted);
}

#[test]
fn payload_decoding_replaces_invalid_bytes() {
    let frame = b"data: caf\xc3\xa9 \xff!\nid: 1\ndata: x".to_vec();
    assert_eq!(frame_payload(&frame), "café \u{FFFD}!x");
    assert_eq!(frame_payload(&b"data:no space".to_vec()), "");
    assert_eq!(frame_payload(&Vec::new()), "");
}

#[test]
fn chunks_split_anywhere_reassemble() {
    let stream = b"data: one\n\ndata: two\n\n";
    let mut decoder = StreamDecoder::new();
    let mut all = Vec::new();
    for b in stream.iter() {
        all.extend(decoder.push_chunk(&[*b]));
    }
    assert_eq!(all, vec!["one".to_string(), "two".to_string()]);
}

#[test]
fn endpoints_of_the_two_backends() {
    let api = GeminiApiModel {
        api_key: "k".to_string(),
        client: reqwest::Client::new(),
        model: GeminiModel::Gemini25Flash,
    };
    assert_eq!(
        api.completion_endpoint(),
        "https://generativelanguage.googleapis.com/v1beta/models/gemini-2.5-flash:generateContent"
    );
    assert_eq!(
        api.stream_endpoint(),
        "https://generativelanguage.googleapis.com/v1beta/models/gemini-2.5-flash:streamGenerateContent?alt=sse"
    );
    assert_eq!(api.auth_header(), ("x-goog-api-key".to_string(), "k".to_string()));
    let vertex = GeminiVertexModel {
        region: "us-east1".to_string(),
        project_name: "proj".to_string(),
        client: reqwest::Client::new(),
        model: GeminiModel::Gemini25Flash,
    };
    assert_eq!(
        vertex.get_endpoint(&"m".to_string(), "generateContent".to_string()),
        "https://us-east1-aiplatform.googleapis.com/v1/projects/proj/locations/us-east1/publishers/google/models/m:generateContent"
    );
    assert_eq!(vertex.auth_header("tok"), ("Authorization".to_string(), "Bearer tok".to_string()));
    assert_eq!(vertex.model(), "gemini-2.5-flash");
    let body = vertex.create_request_body(&empty_request());
    assert!(body.generation_config.thinking_config.is_some());
}

#[test]
fn model_identifier() {
    assert_eq!(GeminiModel::Gemini25Flash.to_string(), "gemini-2.5-flash");
}
