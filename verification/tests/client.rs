use serde_json::Value;
use std::time::Duration;
use tensorzero_core::client::{
    check_first_event, chunk_decode_error, client_stream_event, decode_result, delete_result,
    frame_action, http_failure, keep_ok, keep_resolved, with_embedded_timeout, BodyUse, Client,
    ClientBuilder, ClientBuilderMode, ClientStreamAction, Dispatch, HttpMethod, Operation,
    Transport,
};
use tensorzero_core::client_error::{
    err_to_http, ClientBuilderError, TensorZeroError, TensorZeroInternalError,
};
use tensorzero_core::client_input::{
    ClientInput, ClientInputMessage, ClientInputMessageContent, ToolCallInput,
};
use tensorzero_core::error::{Error, ErrorDetails};
use tensorzero_core::streaming::{SseEvent, SseFault, SseFaultKind};
use tensorzero_core::types::Role;
use url::Url;
use uuid::Uuid;

fn http_client(url: &str) -> Client {
    let Ok(client) =
        ClientBuilder::new(ClientBuilderMode::HTTPGateway { url: Url::parse(url).unwrap() })
            .build_http()
    else {
        panic!("Expected a client")
    };
    client
}

fn embedded_client(timeout: Option<Duration>) -> Client {
    let Ok(client) = ClientBuilder::new(ClientBuilderMode::EmbeddedGateway {
        config_file: None,
        clickhouse_url: None,
        timeout,
        verify_credentials: true,
    })
    .with_verbose_errors(true)
    .build() else {
        panic!("Expected a client")
    };
    client
}

fn plan(client: &Client, operation: Operation) -> (HttpMethod, String, Vec<(String, String)>, bool) {
    match client.dispatch(&operation) {
        Ok(Dispatch::Http { method, url, query, json_body }) => {
            (method, url.to_string(), query, json_body)
        }
        _ => panic!("Expected an HTTP request"),
    }
}

fn pairs(list: &[(&str, &str)]) -> Vec<(String, String)> {
    list.iter().map(|(k, v)| (k.to_string(), v.to_string())).collect()
}

#[test]
fn operations_over_http() {
    // The path of the base address is kept as a prefix, with or without a final slash.
    for base in ["http://example.com/some/prefix", "http://example.com/some/prefix/"] {
        let client = http_client(base);
        assert_eq!(
            plan(&client, Operation::Inference),
            (HttpMethod::Post, "http://example.com/some/prefix/inference".to_string(), vec![], true)
        );
    }
    let client = http_client("http://localhost:3000");
    let id = Uuid::parse_str("0191d3c5-2a4b-7c3d-8e9f-0123456789ab").unwrap();
    let name = || "my set".to_string();
    let cases = [
        (Operation::Status, HttpMethod::Get, "status", vec![], false),
        (Operation::Feedback, HttpMethod::Post, "feedback", vec![], true),
        (
            Operation::GetObject { storage_path: "{\"path\":\"x\"}".to_string() },
            HttpMethod::Get,
            "internal/object_storage",
            pairs(&[("storage_path", "{\"path\":\"x\"}")]),
            false,
        ),
        (Operation::DynamicEvaluationRun, HttpMethod::Post, "dynamic_evaluation_run", vec![], true),
        (
            Operation::DynamicEvaluationRunEpisode { run_id: id },
            HttpMethod::Post,
            "dynamic_evaluation_run/0191d3c5-2a4b-7c3d-8e9f-0123456789ab/episode",
            vec![],
            true,
        ),
        (
            Operation::BulkInsertDatapoints { dataset_name: name() },
            HttpMethod::Post,
            "datasets/my%20set/datapoints/bulk",
            vec![],
            true,
        ),
        (
            Operation::DeleteDatapoint { dataset_name: name(), datapoint_id: id },
            HttpMethod::Delete,
            "datasets/my%20set/datapoints/0191d3c5-2a4b-7c3d-8e9f-0123456789ab",
            vec![],
            false,
        ),
        (
            Operation::GetDatapoint { dataset_name: name(), datapoint_id: id },
            HttpMethod::Get,
            "datasets/my%20set/datapoints/0191d3c5-2a4b-7c3d-8e9f-0123456789ab",
            vec![],
            false,
        ),
        (
            Operation::ListDatapoints {
                dataset_name: name(),
                function_name: None,
                limit: None,
                offset: None,
            },
            HttpMethod::Get,
            "datasets/my%20set/datapoints",
            pairs(&[("limit", "100"), ("offset", "0")]),
            false,
        ),
        (
            Operation::ListDatapoints {
                dataset_name: name(),
                function_name: Some("f".to_string()),
                limit: Some(7),
                offset: Some(4294967295),
            },
            HttpMethod::Get,
            "datasets/my%20set/datapoints",
            pairs(&[("limit", "7"), ("offset", "4294967295"), ("function_name", "f")]),
            false,
        ),
    ];
    for (operation, method, path, query, json_body) in cases {
        assert_eq!(
            plan(&client, operation),
            (method, format!("http://localhost:3000/{path}"), query, json_body)
        );
    }
    assert!(matches!(client.dispatch(&Operation::ClickhouseHealth), Ok(Dispatch::Nothing)));
    for operation in [
        Operation::ListInferences,
        Operation::RenderInferences,
        Operation::LaunchOptimization,
        Operation::LaunchOptimizationWorkflow,
        Operation::PollOptimization,
    ] {
        let Err(error) = client.dispatch(&operation) else { panic!("Expected an error") };
        assert_eq!(
            error,
            TensorZeroError::Other {
                source: Error::new(ErrorDetails::InvalidClientMode {
                    mode: "Http".to_string(),
                    message: "This function is only available in EmbeddedGateway mode".to_string(),
                })
                .into()
            }
        );
        assert_eq!(
            error.message(),
            "Internal TensorZero Error: Invalid client mode: Http. This function is only available in EmbeddedGateway mode"
        );
    }
}

#[test]
fn operations_within_the_process() {
    let timeout = Some(Duration::from_secs(3));
    let client = embedded_client(timeout);
    assert!(client.verbose_errors());
    for operation in [
        Operation::Inference,
        Operation::Feedback,
        Operation::ListInferences,
        Operation::PollOptimization,
        Operation::ClickhouseHealth,
    ] {
        match client.dispatch(&operation) {
            Ok(Dispatch::Embedded { timeout: t }) => assert_eq!(t, timeout),
            _ => panic!("Expected a call within the process"),
        }
    }
    assert!(matches!(client.dispatch(&Operation::Status), Ok(Dispatch::Nothing)));
    assert_eq!(client.get_gateway_version(), None);
    let mut client = client;
    client.update_gateway_version("2025.01.1".to_string());
    assert_eq!(client.get_gateway_version(), None);

    let builder = ClientBuilder::new(ClientBuilderMode::EmbeddedGateway {
        config_file: None,
        clickhouse_url: None,
        timeout: None,
        verify_credentials: false,
    });
    let Err(error) = builder.build_http() else { panic!("Expected an error") };
    assert_eq!(error, ClientBuilderError::NotHTTPGateway);
}

fn tool_call_input() -> ClientInput {
    ClientInput {
        system: None,
        messages: vec![ClientInputMessage {
            role: Role::User,
            content: vec![ClientInputMessageContent::ToolCall(ToolCallInput {
                name: Some("f".to_string()),
                arguments: Some(serde_json::from_str(r#"{"key": "value"}"#).unwrap()),
                raw_arguments: None,
                id: "id".to_string(),
                raw_name: None,
            })],
        }],
    }
}

fn arguments(input: &ClientInput) -> Value {
    match &input.messages[0].content[0] {
        ClientInputMessageContent::ToolCall(call) => call.arguments.clone().unwrap(),
        _ => panic!("Expected a tool call"),
    }
}

#[test]
fn an_old_gateway_gets_arguments_as_a_string() {
    // The gateway has told no version: on the wire, the arguments are a string.
    let mut client = http_client("http://localhost:3000");
    assert_eq!(client.get_gateway_version(), None);
    let mut input = tool_call_input();
    let Ok((Dispatch::Http { url, .. }, streaming)) = client.prepare_inference(&mut input, None)
    else {
        panic!("Expected an HTTP request")
    };
    assert_eq!(url.as_str(), "http://localhost:3000/inference");
    assert!(!streaming);
    assert_eq!(arguments(&input), Value::String("{\"key\":\"value\"}".to_string()));
    assert_eq!(
        serde_json::to_string(&arguments(&input)).unwrap(),
        "\"{\\\"key\\\":\\\"value\\\"}\""
    );

    // Once it has told a recent version, they stay an object.
    let told = Transport::Answered { status: 200, gateway_version: Some("2025.03.3".to_string()) };
    assert_eq!(client.parse_http_response(told, None), Ok(BodyUse::Decode));
    assert_eq!(client.get_gateway_version(), Some("2025.03.3".to_string()));
    let mut input = tool_call_input();
    let Ok((_, streaming)) = client.prepare_inference(&mut input, Some(true)) else {
        panic!("Expected an HTTP request")
    };
    assert!(streaming);
    assert_eq!(input, tool_call_input());

    // A version that cannot be read fails the call.
    client.update_gateway_version("latest".to_string());
    let mut input = tool_call_input();
    assert!(client.prepare_inference(&mut input, Some(false)).is_err());
    assert_eq!(input, tool_call_input());

    // Within the process nothing is adjusted.
    let client = embedded_client(None);
    let mut input = tool_call_input();
    assert!(matches!(
        client.prepare_inference(&mut input, Some(false)),
        Ok((Dispatch::Embedded { timeout: None }, false))
    ));
    assert_eq!(input, tool_call_input());
}

#[test]
fn answers_over_http() {
    let mut client = http_client("http://localhost:3000");
    let failed = |timed_out| Transport::Failed { timed_out, message: "connection refused".into() };
    assert_eq!(client.parse_http_response(failed(true), None), Err(TensorZeroError::RequestTimeout));
    assert_eq!(
        client.parse_http_response(failed(false), None),
        Err(TensorZeroError::Other {
            source: Error::new(ErrorDetails::JsonRequest {
                message: "Error from server: connection refused".to_string()
            })
            .into()
        })
    );
    assert_eq!(client.get_gateway_version(), None);
    let answered = |status, version: Option<&str>| Transport::Answered {
        status,
        gateway_version: version.map(|s| s.to_string()),
    };
    for (status, body_use) in [
        (200, BodyUse::Decode),
        (204, BodyUse::Decode),
        (302, BodyUse::Decode),
        (399, BodyUse::Decode),
        (400, BodyUse::Report { status: 400 }),
        (429, BodyUse::Report { status: 429 }),
        (599, BodyUse::Report { status: 599 }),
        (600, BodyUse::Decode),
    ] {
        assert_eq!(client.parse_http_response(answered(status, None), None), Ok(body_use));
    }
    assert_eq!(client.get_gateway_version(), None);
    // The version is recorded from failures too, and the last one told stays.
    client.parse_http_response(answered(500, Some("2025.01.1")), None).unwrap();
    assert_eq!(client.get_gateway_version(), Some("2025.01.1".to_string()));
    client.parse_http_response(answered(200, None), None).unwrap();
    assert_eq!(client.get_gateway_version(), Some("2025.01.1".to_string()));
    client.parse_http_response(answered(200, Some("2025.02.1")), Some("2030.01.1".into())).unwrap();
    assert_eq!(client.get_gateway_version(), Some("2030.01.1".to_string()));
    client.update_gateway_version_from_headers(None, None);
    assert_eq!(client.get_gateway_version(), Some("2030.01.1".to_string()));

    let error = http_failure(429, Some("slow down".to_string()), "429 Too Many Requests");
    assert_eq!(
        error,
        TensorZeroError::Http {
            status_code: 429,
            text: Some("slow down".to_string()),
            source: Error::new(ErrorDetails::JsonRequest {
                message: "Request failed: 429 Too Many Requests".to_string()
            })
            .into(),
        }
    );
    assert_eq!(error.message(), "HTTP Error (status code 429): slow down");
    assert_eq!(http_failure(500, None, "x").message(), "HTTP Error (status code 500): ");

    assert_eq!(decode_result::<u8>(Ok(3)), Ok(3));
    assert_eq!(
        decode_result::<u8>(Err("missing field".to_string())),
        Err(TensorZeroError::Other {
            source: Error::new(ErrorDetails::Serialization {
                message: "Error deserializing response: missing field".to_string()
            })
            .into()
        })
    );
    assert_eq!(with_embedded_timeout(Some(Ok::<u8, TensorZeroError>(1))), Ok(1));
    assert_eq!(with_embedded_timeout::<u8>(None), Err(TensorZeroError::RequestTimeout));
    assert_eq!(
        with_embedded_timeout::<u8>(Some(Err(TensorZeroError::Git { message: "x".into() }))),
        Err(TensorZeroError::Git { message: "x".into() })
    );
    assert_eq!(TensorZeroError::RequestTimeout.message(), "HTTP Error: request timed out");
    assert_eq!(
        TensorZeroError::Git { message: "no repository".into() }.message(),
        "Failed to get git info: no repository"
    );

    assert_eq!(delete_result(Ok((200, String::new()))), Ok(()));
    assert_eq!(delete_result(Ok((299, "ignored".to_string()))), Ok(()));
    for outcome in [Ok((404, "gone".to_string())), Err("gone".to_string())] {
        assert_eq!(
            delete_result(outcome),
            Err(TensorZeroError::Other {
                source: Error::new(ErrorDetails::JsonRequest {
                    message: "Error deleting datapoint: gone".to_string()
                })
                .into()
            })
        );
    }
}

fn stream_error(message: &str) -> Error {
    Error::new(ErrorDetails::StreamError {
        source: Box::new(Error::new(ErrorDetails::Serialization { message: message.to_string() })),
    })
}

#[test]
fn a_stream_that_starts_with_a_status() {
    // The first event of the stream is the status 429: the call fails with
    // that status and the body of the answer, and no chunk is handed out.
    let fault = SseFault {
        kind: SseFaultKind::InvalidStatusCode { status: 429, body: Some("slow down".to_string()) },
        message: "InvalidStatusCode(429)".to_string(),
    };
    let error = check_first_event(Some(Err(fault))).unwrap_err();
    assert_eq!(
        error,
        TensorZeroError::Http {
            status_code: 429,
            text: Some("slow down".to_string()),
            source: stream_error("Error in streaming response: InvalidStatusCode(429)").into(),
        }
    );
    // Any other fault at the start
    let fault = SseFault { kind: SseFaultKind::Other, message: "Transport".to_string() };
    assert_eq!(
        check_first_event(Some(Err(fault))).unwrap_err(),
        TensorZeroError::Other {
            source: Error::new(ErrorDetails::StreamError {
                source: Box::new(stream_error("Error in streaming response: Transport"))
            })
            .into()
        }
    );
    assert_eq!(check_first_event(None), Ok(()));
    assert_eq!(check_first_event(Some(Ok(SseEvent::Open))), Ok(()));
    assert_eq!(check_first_event(Some(Ok(SseEvent::Message { data: "[DONE]".into() }))), Ok(()));
}

#[test]
fn events_of_a_client_stream() {
    let message = |data: &str| Ok(SseEvent::Message { data: data.to_string() });
    assert_eq!(client_stream_event(Ok(SseEvent::Open)), ClientStreamAction::Skip);
    assert_eq!(client_stream_event(message("[DONE]")), ClientStreamAction::Stop);
    assert_eq!(
        client_stream_event(message("{\"content\": [1, 2]}")),
        ClientStreamAction::Chunk(serde_json::from_str("{\"content\":[1,2]}").unwrap())
    );
    assert_eq!(
        client_stream_event(message("[\"error\"]")),
        ClientStreamAction::Chunk(serde_json::from_str("[\"error\"]").unwrap())
    );
    assert_eq!(
        client_stream_event(message("{\"error\": \"boom\", \"content\": []}")),
        ClientStreamAction::Fail(stream_error("Stream produced an error: \"boom\""))
    );
    assert_eq!(
        client_stream_event(message("{\"error\": null}")),
        ClientStreamAction::Fail(stream_error("Stream produced an error: null"))
    );
    assert_eq!(
        client_stream_event(message("[DONE")),
        ClientStreamAction::Fail(Error::new(ErrorDetails::Serialization {
            message: "Error deserializing inference response chunk".to_string()
        }))
    );
    let fault = |kind| Err(SseFault { kind, message: "it broke".to_string() });
    assert_eq!(client_stream_event(fault(SseFaultKind::StreamEnded)), ClientStreamAction::Stop);
    assert_eq!(
        client_stream_event(fault(SseFaultKind::Other)),
        ClientStreamAction::Fail(stream_error("Error in streaming response: it broke"))
    );
    assert_eq!(
        client_stream_event(fault(SseFaultKind::InvalidStatusCode { status: 500, body: None })),
        ClientStreamAction::Fail(stream_error("Error in streaming response: it broke"))
    );
    let value: Value = serde_json::from_str("{\"a\": 1}").unwrap();
    assert_eq!(frame_action("[DONE]", Some(value.clone()), None), ClientStreamAction::Stop);
    assert_eq!(
        frame_action("x", Some(value.clone()), None),
        ClientStreamAction::Chunk(value.clone())
    );
    assert_eq!(
        frame_action("x", Some(value.clone()), Some(value)),
        ClientStreamAction::Fail(stream_error("Stream produced an error: {\"a\":1}"))
    );
    assert_eq!(
        chunk_decode_error("missing field `x`").message(),
        "Error deserializing json value as InferenceResponseChunk: missing field `x`"
    );

    // A whole stream: an error within it is handed out and the stream goes on.
    let events = vec![
        Ok(SseEvent::Open),
        message("{\"n\": 1}"),
        message("nonsense"),
        message("{\"n\": 2}"),
        fault(SseFaultKind::StreamEnded),
        message("{\"n\": 3}"),
    ];
    let mut seen = Vec::new();
    for event in events {
        match client_stream_event(event) {
            ClientStreamAction::Skip => continue,
            ClientStreamAction::Stop => break,
            ClientStreamAction::Chunk(value) => seen.push(Ok(value.to_string())),
            ClientStreamAction::Fail(e) => seen.push(Err(e.message())),
        }
    }
    assert_eq!(
        seen,
        vec![
            Ok("{\"n\":1}".to_string()),
            Err("Error deserializing inference response chunk".to_string()),
            Ok("{\"n\":2}".to_string()),
        ]
    );
}

#[test]
fn errors_of_an_embedded_gateway_look_like_http() {
    let error = Error::new(ErrorDetails::InvalidRequest { message: "say \"no\"".to_string() });
    let shaped = err_to_http(error);
    let TensorZeroError::Http { status_code, text, source } = &shaped else {
        panic!("Expected an HTTP error")
    };
    assert_eq!(*status_code, 400);
    assert_eq!(text.as_deref(), Some("{\"error\":\"say \\\"no\\\"\"}"));
    let body: Value = serde_json::from_str(text.as_deref().unwrap()).unwrap();
    assert_eq!(body.get("error"), Some(&Value::String("say \"no\"".to_string())));
    assert_eq!(
        source,
        &TensorZeroInternalError(Error::new(ErrorDetails::InvalidRequest {
            message: "say \"no\"".to_string()
        }))
    );
    let statuses = [
        (ErrorDetails::ApiKeyMissing { provider_name: "p".into() }, 400),
        (ErrorDetails::InvalidAuthToken { provider_name: "p".into() }, 401),
        (ErrorDetails::BadCredentialsPreInference { provider_name: "p".into() }, 400),
        (ErrorDetails::InvalidMessage { message: "m".into() }, 400),
        (ErrorDetails::InvalidFunctionVariants { message: "m".into() }, 500),
        (ErrorDetails::Serialization { message: "m".into() }, 500),
        (ErrorDetails::Config { message: "m".into() }, 500),
        (ErrorDetails::OutputParsing { message: "m".into(), raw_output: "r".into() }, 500),
        (ErrorDetails::InternalError { message: "m".into() }, 500),
        (ErrorDetails::UserAlreadyExists { user_name: "u".into() }, 400),
    ];
    for (details, status) in statuses {
        let TensorZeroError::Http { status_code, .. } = err_to_http(Error::new(details)) else {
            panic!("Expected an HTTP error")
        };
        assert_eq!(status_code, status);
    }
    assert_eq!(
        Error::new(ErrorDetails::OutputParsing { message: "m".into(), raw_output: "r".into() })
            .message(),
        "Error parsing output as JSON with message: m: r"
    );
    assert_eq!(
        stream_error("inner").message(),
        "Error in streaming response: inner"
    );
}

#[test]
fn keeping_what_succeeded() {
    let outcomes: Vec<Result<(), u8>> = vec![Ok(()), Err(1), Ok(()), Err(2)];
    assert_eq!(keep_resolved(vec!["a", "b", "c", "d"], outcomes), vec!["a", "c"]);
    assert_eq!(keep_resolved(Vec::<u8>::new(), Vec::<Result<(), u8>>::new()), Vec::<u8>::new());
    let outcomes: Vec<Result<u8, u8>> = vec![Err(0), Ok(1), Ok(2), Err(3), Ok(4)];
    assert_eq!(keep_ok(outcomes), vec![1, 2, 4]);
}
