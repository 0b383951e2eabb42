use serde_json::Value;
use std::time::Duration;
use tensorzero_core::error::{Error, ErrorDetails};
use tensorzero_core::inference::Real32;
use tensorzero_core::jsonschema_util::StaticJSONSchema;
use tensorzero_core::model::{
    ApiKey, Credential, CredentialLocation, FunctionType, InferenceCredentials,
    ModelInferenceRequest, ModelInferenceRequestJsonMode,
};
use tensorzero_core::providers::helpers::{
    inject_extra_request_data, ExtraBodyReplacement, ExtraHeader,
};
use tensorzero_core::providers::openai::{
    get_chat_url, handle_openai_error, prepare_openai_messages, OpenAIContentBlock,
    OpenAIFinishReason, OpenAIRequestMessage, OpenAIRequestToolCall, OpenAIResponse,
    OpenAIResponseChoice, OpenAIResponseFunctionCall, OpenAIResponseMessage,
    OpenAIResponseToolCall, OpenAIToolChoice, OpenAIToolChoiceString, OpenAIUsage, StreamOptions,
};
use tensorzero_core::providers::sglang::{
    batch_unsupported, check_api_base_suffix, default_api_key_location, infer_body,
    infer_response, sglang_response, sglang_to_tensorzero_chunk, stream_sglang_chunk,
    stream_sglang_event, SGLangChatChunk, SGLangChatChunkChoice, SGLangCredentials, SGLangDelta,
    SGLangFinishReason, SGLangFunctionCallChunk, SGLangProvider, SGLangRequest,
    SGLangResponseFormat, SGLangResponseWithMetadata, SGLangToolCallChunk, StreamAction,
};
use tensorzero_core::streaming::{collect_tool_calls, SseEvent, SseFault, SseFaultKind};
use tensorzero_core::tool::{StaticToolConfig, ToolCallConfig, ToolChoice, ToolConfig};
use tensorzero_core::types::{
    ContentBlock, ContentBlockChunk, ContentBlockOutput, File, FinishReason, Latency,
    ProviderInferenceResponse, RequestMessage, Role, Text, TextChunk, Thought, ToolCall,
    ToolCallChunk, ToolResult, Usage,
};
use url::Url;
use uuid::Uuid;

const PROVIDER_TYPE: &str = "sglang";

fn json(text: &str) -> Value {
    serde_json::from_str(text).unwrap()
}

fn sampling_number(x: f32) -> Real32 {
    Real32 { bits: x.to_bits() }
}

fn message(role: Role, text: &str) -> RequestMessage {
    RequestMessage { role, content: vec![text.to_string().into()] }
}

fn weather_tool() -> StaticToolConfig {
    StaticToolConfig {
        name: "get_temperature".to_string(),
        description: "Get the current temperature in a given location".to_string(),
        parameters: StaticJSONSchema::from_value(&json(
            r#"{
                "type": "object",
                "properties": {
                    "location": {"type": "string"},
                    "unit": {"type": "string", "enum": ["celsius", "fahrenheit"]}
                },
                "required": ["location"]
            }"#,
        ))
        .unwrap(),
        strict: false,
    }
}

fn query_tool() -> StaticToolConfig {
    StaticToolConfig {
        name: "query_articles".to_string(),
        description: "Query articles from Wikipedia".to_string(),
        parameters: StaticJSONSchema::from_value(&json(
            r#"{
                "type": "object",
                "properties": {
                    "query": {"type": "string"},
                    "year": {"type": "integer"}
                },
                "required": ["query", "year"]
            }"#,
        ))
        .unwrap(),
        strict: true,
    }
}

fn weather_tool_config() -> ToolCallConfig {
    ToolCallConfig {
        tools_available: vec![ToolConfig::Static(weather_tool())],
        tool_choice: ToolChoice::Specific("get_temperature".to_string()),
        parallel_tool_calls: None,
    }
}

fn multi_tool_config() -> ToolCallConfig {
    ToolCallConfig {
        tools_available: vec![ToolConfig::Static(weather_tool()), ToolConfig::Static(query_tool())],
        tool_choice: ToolChoice::Required,
        parallel_tool_calls: Some(true),
    }
}

fn weather_request() -> ModelInferenceRequest {
    ModelInferenceRequest {
        messages: vec![message(Role::User, "What's the weather?")],
        function_type: FunctionType::Chat,
        ..ModelInferenceRequest::new(Uuid::now_v7())
    }
}

#[test]
fn test_sglang_request_new() {
    let model_name = PROVIDER_TYPE.to_string();
    let basic_request = ModelInferenceRequest {
        messages: vec![message(Role::User, "Hello"), message(Role::Assistant, "Hi there!")],
        system: None,
        tool_config: None,
        temperature: Some(sampling_number(0.7)),
        max_tokens: Some(100),
        seed: Some(69),
        top_p: Some(sampling_number(0.9)),
        presence_penalty: Some(sampling_number(0.1)),
        frequency_penalty: Some(sampling_number(0.2)),
        stream: true,
        json_mode: ModelInferenceRequestJsonMode::Off,
        function_type: FunctionType::Chat,
        output_schema: None,
        ..ModelInferenceRequest::new(Uuid::now_v7())
    };
    let sglang_request = SGLangRequest::new(&model_name, &basic_request).unwrap();

    assert_eq!(sglang_request.model, &model_name);
    assert_eq!(sglang_request.messages.len(), 2);
    assert_eq!(sglang_request.temperature, Some(sampling_number(0.7)));
    assert_eq!(sglang_request.max_tokens, Some(100));
    assert_eq!(sglang_request.seed, Some(69));
    assert_eq!(sglang_request.top_p, Some(sampling_number(0.9)));
    assert_eq!(sglang_request.presence_penalty, Some(sampling_number(0.1)));
    assert_eq!(sglang_request.frequency_penalty, Some(sampling_number(0.2)));
    assert!(sglang_request.stream);
    assert_eq!(sglang_request.stream_options, Some(StreamOptions { include_usage: true }));
    assert!(sglang_request.tools.is_none());
    assert_eq!(sglang_request.tool_choice, None);
    assert!(sglang_request.parallel_tool_calls.is_none());

    // JSON mode that is on requires an output schema
    let request_with_tools = ModelInferenceRequest {
        json_mode: ModelInferenceRequestJsonMode::On,
        tool_config: Some(weather_tool_config()),
        ..weather_request()
    };
    let error = SGLangRequest::new(&model_name, &request_with_tools).expect_err("requires a schema");
    assert_eq!(
        error,
        Error::new(ErrorDetails::InvalidRequest {
            message: "The SGL models requires a schema to be provided in json mode".to_string()
        })
    );

    // Strict JSON mode requires an output schema too
    let request_with_tools = ModelInferenceRequest {
        json_mode: ModelInferenceRequestJsonMode::Strict,
        ..weather_request()
    };
    SGLangRequest::new(&model_name, &request_with_tools).expect_err("requires a schema");

    // Strict JSON mode with an output schema
    let output_schema = json("{}");
    let request_with_tools = ModelInferenceRequest {
        json_mode: ModelInferenceRequestJsonMode::Strict,
        output_schema: Some(output_schema.clone()),
        ..weather_request()
    };
    let sglang_request = SGLangRequest::new(&model_name, &request_with_tools).unwrap();

    assert_eq!(sglang_request.model, &model_name);
    assert_eq!(sglang_request.messages.len(), 1);
    assert_eq!(sglang_request.temperature, None);
    assert_eq!(sglang_request.max_tokens, None);
    assert_eq!(sglang_request.seed, None);
    assert!(!sglang_request.stream);
    assert_eq!(sglang_request.stream_options, None);
    assert_eq!(sglang_request.top_p, None);
    assert_eq!(sglang_request.presence_penalty, None);
    assert_eq!(sglang_request.frequency_penalty, None);
    let Some(SGLangResponseFormat::JsonSchema { json_schema }) = sglang_request.response_format
    else {
        panic!("Expected a schema as response format")
    };
    assert_eq!(json_schema.name, "response");
    assert!(json_schema.strict);
    assert_eq!(json_schema.schema, output_schema);
}

fn valid_response() -> OpenAIResponse {
    OpenAIResponse {
        choices: vec![OpenAIResponseChoice {
            index: 0,
            message: OpenAIResponseMessage {
                content: Some("Hello, world!".to_string()),
                tool_calls: None,
            },
            finish_reason: OpenAIFinishReason::Stop,
        }],
        usage: OpenAIUsage { prompt_tokens: 10, completion_tokens: 20, total_tokens: 30 },
    }
}

#[test]
fn test_sglang_response_with_metadata_try_into() {
    let generic_request = ModelInferenceRequest {
        messages: vec![message(Role::User, "test_user")],
        temperature: Some(sampling_number(0.5)),
        max_tokens: Some(100),
        seed: Some(69),
        ..ModelInferenceRequest::new(Uuid::now_v7())
    };
    let sglang_response_with_metadata = SGLangResponseWithMetadata {
        response: valid_response(),
        raw_response: "test_response".to_string(),
        latency: Latency::NonStreaming { response_time: Duration::from_secs(0) },
        raw_request: "test_request".to_string(),
        generic_request: &generic_request,
    };
    let id = Uuid::now_v7();
    let inference_response: ProviderInferenceResponse =
        sglang_response(sglang_response_with_metadata, id, 42).unwrap();

    assert_eq!(inference_response.output.len(), 1);
    assert_eq!(inference_response.output[0], "Hello, world!".to_string().into());
    assert_eq!(inference_response.raw_response, "test_response");
    assert_eq!(inference_response.raw_request, "test_request");
    assert_eq!(inference_response.usage.input_tokens, 10);
    assert_eq!(inference_response.usage.output_tokens, 20);
    assert_eq!(inference_response.finish_reason, Some(FinishReason::Stop));
    assert_eq!(
        inference_response.latency,
        Latency::NonStreaming { response_time: Duration::from_secs(0) }
    );
    assert_eq!(inference_response.id, id);
    assert_eq!(inference_response.created, 42);
    assert_eq!(inference_response.system, None);
    assert_eq!(inference_response.input_messages, generic_request.messages);
}

#[test]
fn response_with_tool_calls_and_wrong_choices() {
    let generic_request = ModelInferenceRequest {
        system: Some("be brief".to_string()),
        ..weather_request()
    };
    let call = |id: &str| OpenAIResponseToolCall {
        id: id.to_string(),
        function: OpenAIResponseFunctionCall {
            name: "get_temperature".to_string(),
            arguments: "{}".to_string(),
        },
    };
    let mut response = valid_response();
    response.choices[0].message.tool_calls = Some(vec![call("a"), call("b")]);
    response.choices[0].finish_reason = OpenAIFinishReason::FunctionCall;
    let value = SGLangResponseWithMetadata {
        response,
        raw_response: "raw".to_string(),
        latency: Latency::Batch,
        raw_request: "request".to_string(),
        generic_request: &generic_request,
    };
    let out = sglang_response(value, Uuid::now_v7(), 0).unwrap();
    let tool = |id: &str| {
        ContentBlockOutput::ToolCall(ToolCall {
            id: id.to_string(),
            name: "get_temperature".to_string(),
            arguments: "{}".to_string(),
        })
    };
    assert_eq!(
        out.output,
        vec![ContentBlockOutput::Text(Text { text: "Hello, world!".to_string() }), tool("a"), tool("b")]
    );
    assert_eq!(out.finish_reason, Some(FinishReason::ToolCall));
    assert_eq!(out.system, Some("be brief".to_string()));

    for count in [0usize, 2] {
        let mut response = valid_response();
        response.choices = vec![response.choices[0].clone(); count];
        let value = SGLangResponseWithMetadata {
            response,
            raw_response: "raw".to_string(),
            latency: Latency::Batch,
            raw_request: "request".to_string(),
            generic_request: &generic_request,
        };
        let error = sglang_response(value, Uuid::now_v7(), 0).unwrap_err();
        assert_eq!(
            error,
            Error::new(ErrorDetails::InferenceServer {
                message: format!("Response has invalid number of choices: {count}. Expected 1."),
                provider_type: "sglang".to_string(),
                raw_request: Some("request".to_string()),
                raw_response: Some("raw".to_string()),
            })
        );
        assert_eq!(error.status_code(), 500);
    }
}

#[test]
fn test_sglang_provider_new_api_base_check() {
    let model_name = "test-model".to_string();
    let provider = |url: &str| {
        SGLangProvider::new(model_name.clone(), Url::parse(url).unwrap(), SGLangCredentials::Absent)
    };

    // Base addresses as they should be
    assert!(!check_api_base_suffix(provider("http://localhost:1234/v1/").api_base()));
    assert!(!check_api_base_suffix(provider("http://localhost:1234/v1").api_base()));

    // Base addresses that already name the endpoint
    let invalid_url_1 = provider("http://localhost:1234/chat/completions");
    assert!(check_api_base_suffix(invalid_url_1.api_base()));
    let invalid_url_2 = provider("http://localhost:1234/v1/chat/completions/");
    assert!(check_api_base_suffix(invalid_url_2.api_base()));
    assert_eq!(invalid_url_2.model_name(), "test-model");
}

#[test]
fn test_sglang_tools() {
    let model_name = PROVIDER_TYPE.to_string();
    let request_with_tools =
        ModelInferenceRequest { tool_config: Some(multi_tool_config()), ..weather_request() };

    let sglang_request = SGLangRequest::new(&model_name, &request_with_tools).unwrap();

    let tools = sglang_request.tools.unwrap();
    assert_eq!(tools.len(), 2);
    assert_eq!(tools[0].function.name, weather_tool().name);
    assert_eq!(tools[0].function.parameters, weather_tool().parameters.value);
    assert_eq!(tools[0].function.description, Some(weather_tool().description));
    assert!(!tools[0].strict);
    assert_eq!(tools[1].function.name, query_tool().name);
    assert_eq!(tools[1].function.parameters, query_tool().parameters.value);
    assert!(tools[1].strict);
    let tool_choice = sglang_request.tool_choice.unwrap();
    assert_eq!(tool_choice, OpenAIToolChoice::String(OpenAIToolChoiceString::Required));
    let parallel_tool_calls = sglang_request.parallel_tool_calls.unwrap();
    assert!(parallel_tool_calls);
    let tool_config = ToolCallConfig {
        tools_available: vec![],
        tool_choice: ToolChoice::Required,
        parallel_tool_calls: Some(true),
    };

    // No tools but a tool choice: nothing about tools is sent
    let request_without_tools =
        ModelInferenceRequest { tool_config: Some(tool_config), ..weather_request() };
    let sglang_request = SGLangRequest::new(&model_name, &request_without_tools).unwrap();
    assert!(sglang_request.tools.is_none());
    assert!(sglang_request.tool_choice.is_none());
    assert!(sglang_request.parallel_tool_calls.is_none());

    // A choice of one tool names it
    let request =
        ModelInferenceRequest { tool_config: Some(weather_tool_config()), ..weather_request() };
    let sglang_request = SGLangRequest::new(&model_name, &request).unwrap();
    assert_eq!(
        sglang_request.tool_choice,
        Some(OpenAIToolChoice::Specific("get_temperature".to_string()))
    );
}

#[test]
fn messages_on_the_wire() {
    let text = |s: &str| OpenAIContentBlock::Text { text: s.to_string() };
    let messages = vec![
        RequestMessage {
            role: Role::User,
            content: vec![
                "a".to_string().into(),
                ContentBlock::ToolResult(ToolResult {
                    id: "t1".to_string(),
                    name: "f".to_string(),
                    result: "42".to_string(),
                }),
                ContentBlock::File(File { mime_type: "image/png".to_string(), data: "AAAA".to_string() }),
                ContentBlock::Thought(Thought { text: "hm".to_string(), signature: None }),
            ],
        },
        RequestMessage {
            role: Role::Assistant,
            content: vec![ContentBlock::ToolCall(ToolCall {
                id: "t2".to_string(),
                name: "g".to_string(),
                arguments: "{}".to_string(),
            })],
        },
        RequestMessage { role: Role::Assistant, content: vec![] },
        RequestMessage { role: Role::User, content: vec![] },
    ];
    let out = prepare_openai_messages(Some("sys"), &messages).unwrap();
    assert_eq!(
        out,
        vec![
            OpenAIRequestMessage::System { content: "sys".to_string() },
            OpenAIRequestMessage::Tool { content: "42".to_string(), tool_call_id: "t1".to_string() },
            OpenAIRequestMessage::User {
                content: vec![
                    text("a"),
                    OpenAIContentBlock::ImageUrl {
                        mime_type: "image/png".to_string(),
                        data: "AAAA".to_string()
                    }
                ]
            },
            OpenAIRequestMessage::Assistant {
                content: None,
                tool_calls: Some(vec![OpenAIRequestToolCall {
                    id: "t2".to_string(),
                    name: "g".to_string(),
                    arguments: "{}".to_string()
                }])
            },
            OpenAIRequestMessage::Assistant { content: None, tool_calls: None },
        ]
    );

    let misplaced = vec![
        message(Role::User, "fine"),
        RequestMessage {
            role: Role::Assistant,
            content: vec![ContentBlock::ToolResult(ToolResult {
                id: "t".to_string(),
                name: "f".to_string(),
                result: "r".to_string(),
            })],
        },
        RequestMessage {
            role: Role::User,
            content: vec![ContentBlock::ToolCall(ToolCall {
                id: "t".to_string(),
                name: "f".to_string(),
                arguments: "{}".to_string(),
            })],
        },
    ];
    assert_eq!(
        prepare_openai_messages(None, &misplaced).unwrap_err(),
        Error::new(ErrorDetails::InvalidMessage {
            message: "Tool results are not supported in assistant messages".to_string()
        })
    );
    assert_eq!(
        prepare_openai_messages(None, &misplaced[2..].to_vec()).unwrap_err(),
        Error::new(ErrorDetails::InvalidMessage {
            message: "Tool calls are not supported in user messages".to_string()
        })
    );
    // The schema is looked at before the messages.
    let request = ModelInferenceRequest {
        messages: misplaced,
        json_mode: ModelInferenceRequestJsonMode::On,
        ..ModelInferenceRequest::new(Uuid::now_v7())
    };
    assert_eq!(
        SGLangRequest::new("m", &request).unwrap_err().get_details(),
        &ErrorDetails::InvalidRequest {
            message: "The SGL models requires a schema to be provided in json mode".to_string()
        }
    );
}

fn delta(content: Option<&str>, tool_calls: Option<Vec<SGLangToolCallChunk>>) -> SGLangChatChunk {
    SGLangChatChunk {
        choices: vec![SGLangChatChunkChoice {
            delta: SGLangDelta { content: content.map(|s| s.to_string()), tool_calls },
            finish_reason: None,
        }],
        usage: None,
    }
}

fn piece(index: Option<u8>, id: Option<&str>, name: Option<&str>, arguments: Option<&str>) -> SGLangToolCallChunk {
    SGLangToolCallChunk {
        index,
        id: id.map(|s| s.to_string()),
        function: SGLangFunctionCallChunk {
            name: name.map(|s| s.to_string()),
            arguments: arguments.map(|s| s.to_string()),
        },
    }
}

fn block(id: &str, name: Option<&str>, arguments: &str) -> ContentBlockChunk {
    ContentBlockChunk::ToolCall(ToolCallChunk {
        id: id.to_string(),
        raw_name: name.map(|s| s.to_string()),
        raw_arguments: arguments.to_string(),
    })
}

#[test]
fn tool_call_pieces_are_stitched_by_id() {
    let mut ids: Vec<String> = Vec::new();
    let latency = Duration::from_millis(5);
    let first = sglang_to_tensorzero_chunk(
        "one".to_string(),
        delta(None, Some(vec![piece(None, Some("t1"), Some("f"), Some("{\"a"))])),
        latency,
        &mut ids,
        1,
    )
    .unwrap();
    let second = sglang_to_tensorzero_chunk(
        "two".to_string(),
        delta(None, Some(vec![piece(None, None, None, Some(":1}"))])),
        latency,
        &mut ids,
        2,
    )
    .unwrap();
    assert_eq!(first.content, vec![block("t1", Some("f"), "{\"a")]);
    assert_eq!(second.content, vec![block("t1", None, ":1}")]);
    assert_eq!(ids, vec!["t1".to_string()]);

    // All pieces carry one id, and their arguments joined are the arguments of the call.
    let mut arguments = String::new();
    for chunk in [&first, &second] {
        for content in &chunk.content {
            let ContentBlockChunk::ToolCall(call) = content else { panic!("Expected a tool call") };
            assert_eq!(call.id, "t1");
            arguments.push_str(&call.raw_arguments);
        }
    }
    assert_eq!(arguments, "{\"a:1}");

    // Stitched, the two pieces are one tool call.
    let mut blocks = first.content.clone();
    blocks.extend(second.content.clone());
    assert_eq!(
        collect_tool_calls(&blocks),
        vec![ToolCall {
            id: "t1".to_string(),
            name: "f".to_string(),
            arguments: "{\"a:1}".to_string()
        }]
    );
    assert_eq!(first.raw_response, "one");
    assert_eq!(second.created, 2);
    assert_eq!(second.latency, latency);
}

#[test]
fn chunk_translation() {
    let mut ids = vec!["t0".to_string()];
    let mut chunk = delta(
        Some("Hi"),
        Some(vec![
            piece(Some(1), Some("t1"), Some("g"), None),
            piece(Some(0), None, None, Some("x")),
            piece(Some(1), None, None, Some("y")),
            piece(Some(2), Some("t2"), None, Some("z")),
            piece(Some(2), None, None, None),
        ]),
    );
    chunk.choices[0].finish_reason = Some(SGLangFinishReason::ToolCalls);
    chunk.usage = Some(OpenAIUsage { prompt_tokens: 3, completion_tokens: 4, total_tokens: 7 });
    let out =
        sglang_to_tensorzero_chunk("raw".to_string(), chunk, Duration::from_secs(1), &mut ids, 9)
            .unwrap();
    assert_eq!(
        out.content,
        vec![
            ContentBlockChunk::Text(TextChunk { id: "0".to_string(), text: "Hi".to_string() }),
            block("t1", Some("g"), ""),
            block("t0", None, "x"),
            block("t1", None, "y"),
            block("t2", None, "z"),
            block("t2", None, ""),
        ]
    );
    assert_eq!(ids, vec!["t0".to_string(), "t1".to_string(), "t2".to_string()]);
    assert_eq!(out.finish_reason, Some(FinishReason::ToolCall));
    assert_eq!(out.usage, Some(Usage { input_tokens: 3, output_tokens: 4 }));

    // A piece without an id whose index lies beyond the ids seen
    let mut ids = vec![];
    let chunk = delta(
        None,
        Some(vec![piece(None, Some("a"), None, None), piece(Some(1), None, None, Some("x"))]),
    );
    let error =
        sglang_to_tensorzero_chunk("raw".to_string(), chunk, Duration::from_secs(1), &mut ids, 9)
            .unwrap_err();
    assert_eq!(
        error,
        Error::new(ErrorDetails::InferenceServer {
            message: "Tool call index out of bounds (meaning we haven't seen this many ids in the stream)".to_string(),
            provider_type: "sglang".to_string(),
            raw_request: None,
            raw_response: None,
        })
    );
    assert_eq!(ids, vec!["a".to_string()]);

    // More than one choice
    let mut chunk = delta(Some("a"), None);
    chunk.choices.push(chunk.choices[0].clone());
    let error =
        sglang_to_tensorzero_chunk("raw".to_string(), chunk, Duration::from_secs(1), &mut ids, 9)
            .unwrap_err();
    assert_eq!(
        error.get_details(),
        &ErrorDetails::InferenceServer {
            message: "Response has invalid number of choices: {}. Expected 1.".to_string(),
            provider_type: "sglang".to_string(),
            raw_request: None,
            raw_response: Some("raw".to_string()),
        }
    );

    // No choice: a chunk that only carries usage
    let chunk = SGLangChatChunk {
        choices: vec![],
        usage: Some(OpenAIUsage { prompt_tokens: 1, completion_tokens: 2, total_tokens: 3 }),
    };
    let out =
        sglang_to_tensorzero_chunk("raw".to_string(), chunk, Duration::from_secs(1), &mut ids, 9)
            .unwrap();
    assert!(out.content.is_empty());
    assert_eq!(out.finish_reason, None);
    assert_eq!(out.usage, Some(Usage { input_tokens: 1, output_tokens: 2 }));
}

#[test]
fn finish_reasons() {
    assert_eq!(FinishReason::from(SGLangFinishReason::Stop), FinishReason::Stop);
    assert_eq!(FinishReason::from(SGLangFinishReason::Length), FinishReason::Length);
    assert_eq!(FinishReason::from(SGLangFinishReason::ToolCalls), FinishReason::ToolCall);
    assert_eq!(FinishReason::from(SGLangFinishReason::ContentFilter), FinishReason::ContentFilter);
    assert_eq!(FinishReason::from(SGLangFinishReason::Unknown), FinishReason::Unknown);
    assert_eq!(FinishReason::from(OpenAIFinishReason::FunctionCall), FinishReason::ToolCall);
    assert_eq!(FinishReason::from(OpenAIFinishReason::ToolCalls), FinishReason::ToolCall);
    assert_eq!(FinishReason::from(OpenAIFinishReason::Unknown), FinishReason::Unknown);
    assert_eq!(
        Usage::from(OpenAIUsage { prompt_tokens: 1, completion_tokens: 2, total_tokens: 3 }),
        Usage { input_tokens: 1, output_tokens: 2 }
    );
}

#[test]
fn a_stream_of_one_chunk() {
    // Frames: an opening, one chunk with the text "Hi", the sentinel.
    let events = vec![
        Ok(SseEvent::Open),
        Ok(SseEvent::Message { data: "{\"choices\":[{\"delta\":{\"content\":\"Hi\"}}]}".to_string() }),
        Ok(SseEvent::Message { data: "[DONE]".to_string() }),
        Ok(SseEvent::Message { data: "never read".to_string() }),
    ];
    let mut ids = Vec::new();
    let mut chunks = Vec::new();
    for event in events {
        match stream_sglang_event(event) {
            StreamAction::Skip => continue,
            StreamAction::Stop => break,
            StreamAction::Decode { data } => {
                // What a decoder makes of the frame above.
                let decoded = Ok(delta(Some("Hi"), None));
                chunks.push(stream_sglang_chunk(data, decoded, Duration::ZERO, &mut ids, 0));
            }
            StreamAction::Fail(e) => chunks.push(Err(e)),
        }
    }
    assert_eq!(chunks.len(), 1);
    let chunk = chunks.pop().unwrap().unwrap();
    assert_eq!(
        chunk.content,
        vec![ContentBlockChunk::Text(TextChunk { id: "0".to_string(), text: "Hi".to_string() })]
    );
    assert_eq!(chunk.raw_response, "{\"choices\":[{\"delta\":{\"content\":\"Hi\"}}]}");
}

#[test]
fn stream_faults_of_the_provider() {
    let fault = SseFault {
        kind: SseFaultKind::InvalidStatusCode { status: 429, body: Some("slow down".to_string()) },
        message: "Invalid status code: 429".to_string(),
    };
    assert_eq!(
        stream_sglang_event(Err(fault)),
        StreamAction::Fail(Error::new(ErrorDetails::InferenceServer {
            message: "Invalid status code: 429".to_string(),
            provider_type: "sglang".to_string(),
            raw_request: None,
            raw_response: Some("slow down".to_string()),
        }))
    );
    let fault = SseFault { kind: SseFaultKind::Other, message: "broken pipe".to_string() };
    assert_eq!(
        stream_sglang_event(Err(fault)),
        StreamAction::Fail(Error::new(ErrorDetails::InferenceServer {
            message: "broken pipe".to_string(),
            provider_type: "sglang".to_string(),
            raw_request: None,
            raw_response: None,
        }))
    );
    let mut ids = vec!["kept".to_string()];
    let error = stream_sglang_chunk(
        "{".to_string(),
        Err("EOF while parsing".to_string()),
        Duration::ZERO,
        &mut ids,
        0,
    )
    .unwrap_err();
    assert_eq!(
        error.get_details(),
        &ErrorDetails::InferenceServer {
            message: "Error parsing chunk. Error: EOF while parsing".to_string(),
            provider_type: "sglang".to_string(),
            raw_request: None,
            raw_response: Some("{".to_string()),
        }
    );
    assert_eq!(ids, vec!["kept".to_string()]);
}

#[test]
fn credentials() {
    assert_eq!(default_api_key_location(), CredentialLocation::Env("SGLANG_API_KEY".to_string()));
    let key = ApiKey::new("secret".to_string());
    assert!(
        SGLangCredentials::try_from_credential(Credential::Static(key.clone())).unwrap()
            == SGLangCredentials::Static(key.clone())
    );
    assert!(
        SGLangCredentials::try_from_credential(Credential::Dynamic("k".to_string())).unwrap()
            == SGLangCredentials::Dynamic("k".to_string())
    );
    assert!(
        SGLangCredentials::try_from_credential(Credential::Absent).unwrap()
            == SGLangCredentials::Absent
    );
    assert!(
        SGLangCredentials::try_from_credential(Credential::Missing).unwrap()
            == SGLangCredentials::Absent
    );
    for other in [Credential::Sdk, Credential::FileContents(key.clone())] {
        let Err(error) = SGLangCredentials::try_from_credential(other) else {
            panic!("Expected an error")
        };
        assert_eq!(
            error.get_details(),
            &ErrorDetails::Config {
                message: "Invalid api_key_location for SGLang provider".to_string()
            }
        );
    }

    let mut keys = InferenceCredentials::new();
    keys.insert("k".to_string(), ApiKey::new("dynamic".to_string()));
    let none = InferenceCredentials::new();
    let found = SGLangCredentials::Static(key.clone());
    assert_eq!(found.get_api_key(&none).ok().flatten().map(|k| k.expose_secret()), Some("secret"));
    let dynamic = SGLangCredentials::Dynamic("k".to_string());
    assert_eq!(
        dynamic.get_api_key(&keys).ok().flatten().map(|k| k.expose_secret()),
        Some("dynamic")
    );
    let Err(error) = dynamic.get_api_key(&none) else { panic!("Expected an error") };
    assert_eq!(
        error.get_details(),
        &ErrorDetails::ApiKeyMissing { provider_name: "SGLang".to_string() }
    );
    assert_eq!(error.message(), "API key missing for provider: SGLang");
    assert!(SGLangCredentials::Absent.get_api_key(&keys).ok().flatten().is_none());
}

#[test]
fn preparing_and_reading_a_call() {
    let mut keys = InferenceCredentials::new();
    keys.insert("k".to_string(), ApiKey::new("dynamic".to_string()));
    let provider = SGLangProvider::new(
        "llama".to_string(),
        Url::parse("http://localhost:1234/v1").unwrap(),
        SGLangCredentials::Dynamic("k".to_string()),
    );
    let request = weather_request();
    let Ok(plan) = provider.prepare_infer(&request, &keys) else { panic!("Expected a plan") };
    assert_eq!(plan.url.as_str(), "http://localhost:1234/v1/chat/completions");
    assert_eq!(plan.api_key.map(|k| k.expose_secret()), Some("dynamic"));
    assert_eq!(plan.request.model, "llama");
    assert_eq!(plan.request.messages.len(), 1);
    let none = InferenceCredentials::new();
    assert!(provider.prepare_infer(&request, &none).is_err());
    assert_eq!(
        get_chat_url(&Url::parse("http://h/a/b/").unwrap()).unwrap().as_str(),
        "http://h/a/b/chat/completions"
    );

    assert_eq!(infer_body("req", 200, Ok("body".to_string())), Ok("body".to_string()));
    assert_eq!(
        infer_body("req", 503, Ok("down".to_string())),
        Err(handle_openai_error("req", 503, "down", "sglang"))
    );
    assert_eq!(
        infer_body("req", 503, Ok("down".to_string())).unwrap_err().get_details(),
        &ErrorDetails::InferenceServer {
            message: "down".to_string(),
            provider_type: "sglang".to_string(),
            raw_request: Some("req".to_string()),
            raw_response: Some("down".to_string()),
        }
    );
    assert_eq!(
        infer_body("req", 200, Err("reset".to_string())).unwrap_err().get_details(),
        &ErrorDetails::InferenceServer {
            message: "Error parsing text response: reset".to_string(),
            provider_type: "sglang".to_string(),
            raw_request: Some("req".to_string()),
            raw_response: None,
        }
    );
    assert_eq!(
        infer_body("req", 404, Err("reset".to_string())).unwrap_err().message(),
        "Error from sglang server: Error parsing error response: reset"
    );

    let error = infer_response(
        Err("expected value".to_string()),
        "<html>".to_string(),
        "req".to_string(),
        Latency::Batch,
        &request,
        Uuid::now_v7(),
        0,
    )
    .unwrap_err();
    assert_eq!(
        error.get_details(),
        &ErrorDetails::InferenceServer {
            message: "Error parsing JSON response: expected value".to_string(),
            provider_type: "sglang".to_string(),
            raw_request: Some("req".to_string()),
            raw_response: Some("<html>".to_string()),
        }
    );
    let out = infer_response(
        Ok(valid_response()),
        "raw".to_string(),
        "req".to_string(),
        Latency::Batch,
        &request,
        Uuid::now_v7(),
        5,
    )
    .unwrap();
    assert_eq!(out.output, vec![ContentBlockOutput::Text(Text { text: "Hello, world!".to_string() })]);
    assert_eq!(out.created, 5);

    assert_eq!(
        batch_unsupported().get_details(),
        &ErrorDetails::UnsupportedModelProviderForBatchInference {
            provider_type: "sglang".to_string()
        }
    );
}

fn replacement(pointer: &str, value: &str) -> ExtraBodyReplacement {
    ExtraBodyReplacement { pointer: pointer.to_string(), value: json(value) }
}

fn header(name: &str, value: &str) -> ExtraHeader {
    ExtraHeader { name: name.to_string(), value: value.to_string() }
}

#[test]
fn extra_request_data() {
    let body = || json(r#"{"model": "m", "messages": [{"role": "user", "content": "hi"}], "opts": {}}"#);
    // Nothing extra: the body goes out as it is, and its text is the raw request.
    let (out, headers, raw) =
        inject_extra_request_data(body(), &vec![], vec![header("a", "1")], &vec![]).unwrap();
    assert_eq!(out, body());
    assert_eq!(headers, vec![header("a", "1")]);
    assert_eq!(raw, body().to_string());

    let extra_body = vec![
        replacement("/model", "\"other\""),
        replacement("/messages/0/content", "\"bye\""),
        replacement("/top_k", "5"),
        replacement("/opts/deep", "{\"x\": [1]}"),
        replacement("/opts/deep/x/0", "2"),
        replacement("/top_k", "6"),
    ];
    let extra_headers = vec![header("b", "2"), header("a", "3")];
    let (out, headers, raw) =
        inject_extra_request_data(body(), &extra_body, vec![header("a", "1")], &extra_headers)
            .unwrap();
    let expected = json(
        r#"{"model": "other", "messages": [{"role": "user", "content": "bye"}],
            "opts": {"deep": {"x": [2]}}, "top_k": 6}"#,
    );
    assert_eq!(out, expected);
    assert_eq!(raw, expected.to_string());
    assert_eq!(headers, vec![header("a", "1"), header("b", "2"), header("a", "3")]);

    // The whole body
    let (out, _, raw) =
        inject_extra_request_data(body(), &vec![replacement("", "[]")], vec![], &vec![]).unwrap();
    assert_eq!(out, json("[]"));
    assert_eq!(raw, "[]");

    // Pointers that name no place: the first one is told.
    for (pointer, extra) in [
        ("/a/b", vec![replacement("/model", "1"), replacement("/a/b", "1"), replacement("/c/d", "1")]),
        ("/messages/7", vec![replacement("/messages/7", "1")]),
        ("/model/x", vec![replacement("/model/x", "1")]),
        ("model", vec![replacement("model", "1")]),
        ("/a~1b", vec![replacement("/a~1b", "1")]),
    ] {
        let error = inject_extra_request_data(body(), &extra, vec![], &vec![]).unwrap_err();
        assert_eq!(
            error,
            Error::new(ErrorDetails::InvalidRequest {
                message: format!("The pointer `{pointer}` of `extra_body` names no place in the request")
            })
        );
    }
    // An escaped name that is there is put.
    let with_slash = json(r#"{"a/b": 1}"#);
    let (out, _, _) =
        inject_extra_request_data(with_slash, &vec![replacement("/a~1b", "2")], vec![], &vec![])
            .unwrap();
    assert_eq!(out, json(r#"{"a/b": 2}"#));
}

#[test]
fn errors_at_length() {
    let error = ErrorDetails::InferenceServer {
        message: "down".to_string(),
        provider_type: "sglang".to_string(),
        raw_request: Some("{}".to_string()),
        raw_response: None,
    };
    assert_eq!(error.display(false), "Error from sglang server: down");
    assert_eq!(
        error.display(true),
        "Error from sglang server: down\nRaw request: {}\nRaw response: "
    );
    let other = ErrorDetails::Config { message: "m".to_string() };
    assert_eq!(other.display(true), "m");
    assert_eq!(other.display(false), other.message());
}

#[test]
fn pieces_of_several_calls_are_stitched() {
    let text = ContentBlockChunk::Text(TextChunk { id: "0".to_string(), text: "Hi".to_string() });
    let blocks = vec![
        block("a", Some("get_"), "{"),
        text.clone(),
        block("b", None, "[1"),
        block("a", Some("weather"), "\"x\": 1"),
        block("b", Some("list"), ", 2]"),
        block("a", None, "}"),
        block("", None, ""),
        text,
    ];
    let call = |id: &str, name: &str, arguments: &str| ToolCall {
        id: id.to_string(),
        name: name.to_string(),
        arguments: arguments.to_string(),
    };
    assert_eq!(
        collect_tool_calls(&blocks),
        vec![call("a", "get_weather", "{\"x\": 1}"), call("b", "list", "[1, 2]"), call("", "", "")]
    );
    assert_eq!(collect_tool_calls(&vec![]), vec![]);
}
