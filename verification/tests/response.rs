use serde_json::Value;
use std::time::Duration;
use tensorzero_core::function::{FunctionConfig, FunctionConfigChat, FunctionConfigJson};
use tensorzero_core::inference::{
    InferenceConfig, InferenceIds, InferenceParams, InferenceResult, JsonInferenceOutput,
};
use tensorzero_core::jsonschema_util::{
    report_schema_check, validate_against, DynamicJSONSchema, StaticJSONSchema,
};
use tensorzero_core::error::ErrorDetails;
use tensorzero_core::table::NameTable;
use tensorzero_core::tool::ToolCallConfig;
use tensorzero_core::types::{
    ContentBlockOutput, FinishReason, Latency, ModelInferenceResponseWithMetadata, Thought, ToolCall,
    Usage,
};
use uuid::Uuid;

fn json(text: &str) -> Value {
    serde_json::from_str(text).unwrap()
}

fn person_schema() -> Value {
    json(
        r#"{
          "$schema": "http://json-schema.org/draft-07/schema#",
          "type": "object",
          "properties": {
            "name": { "type": "string" },
            "age": { "type": "integer", "minimum": 0 }
          },
          "required": ["name", "age"],
          "additionalProperties": false
        }"#,
    )
}

fn json_function(output_schema: &Value) -> FunctionConfig {
    let implicit_tool_call_config = ToolCallConfig::implicit_from_value(output_schema);
    FunctionConfig::Json(FunctionConfigJson {
        variants: NameTable::new(),
        system_schema: None,
        user_schema: None,
        assistant_schema: None,
        output_schema: StaticJSONSchema::from_value(output_schema).unwrap(),
        implicit_tool_call_config,
        description: None,
    })
}

fn model_response(
    output: &[ContentBlockOutput],
    usage: Usage,
    finish_reason: Option<FinishReason>,
) -> ModelInferenceResponseWithMetadata {
    ModelInferenceResponseWithMetadata {
        id: Uuid::now_v7(),
        created: 0,
        system: None,
        input_messages: vec![],
        output: output.to_vec(),
        raw_request: "raw_request".to_string(),
        raw_response: "content".to_string(),
        usage,
        latency: Latency::NonStreaming { response_time: Duration::from_millis(100) },
        model_provider_name: "model_provider_name".into(),
        model_name: "model_name".into(),
        finish_reason,
        cached: false,
    }
}

fn config<'a>(dynamic_output_schema: Option<&'a DynamicJSONSchema>) -> InferenceConfig<'a> {
    InferenceConfig {
        ids: InferenceIds { inference_id: Uuid::now_v7(), episode_id: Uuid::now_v7() },
        tool_config: None,
        function_name: "",
        variant_name: Some(""),
        dynamic_output_schema,
        extra_cache_key: None,
    }
}

struct Case {
    content: Vec<ContentBlockOutput>,
    finish_reason: Option<FinishReason>,
    parsed: Option<Value>,
    raw: Option<&'static str>,
    output_tokens: u32,
}

fn run(function_config: &FunctionConfig, inference_config: &InferenceConfig, case: Case) {
    let inference_id = Uuid::now_v7();
    let usage = Usage { input_tokens: 10, output_tokens: case.output_tokens };
    let model_response = model_response(&case.content, usage, case.finish_reason);
    let response = function_config
        .prepare_response(
            inference_id,
            case.content,
            usage,
            vec![model_response.clone()],
            inference_config,
            InferenceParams::default(),
            None,
            17,
        )
        .unwrap();
    match response {
        InferenceResult::Json(result) => {
            assert_eq!(result.inference_id, inference_id);
            assert_eq!(result.created, 17);
            assert_eq!(result.output.parsed, case.parsed);
            assert_eq!(result.output.raw, case.raw.map(|s| s.to_string()));
            assert_eq!(result.usage, usage);
            assert_eq!(result.finish_reason, case.finish_reason);
            assert_eq!(result.model_inference_results, vec![model_response]);
        }
        _ => panic!("Expected a JSON inference result"),
    }
}

fn text(s: &str) -> ContentBlockOutput {
    s.to_string().into()
}

fn tool(arguments: &str) -> ContentBlockOutput {
    ContentBlockOutput::ToolCall(ToolCall {
        id: "tool_call_id".to_string(),
        name: "tool_call_name".to_string(),
        arguments: arguments.to_string(),
    })
}

#[test]
fn test_prepare_response_json() {
    let function_config = json_function(&person_schema());
    let inference_config = config(None);

    // A block that is no JSON
    run(
        &function_config,
        &inference_config,
        Case {
            content: vec![text("Hello, world!")],
            finish_reason: Some(FinishReason::Stop),
            parsed: None,
            raw: Some("Hello, world!"),
            output_tokens: 10,
        },
    );
    // A block that matches the schema
    run(
        &function_config,
        &inference_config,
        Case {
            content: vec![text(r#"{"name": "Jerry", "age": 30}"#)],
            finish_reason: Some(FinishReason::ToolCall),
            parsed: Some(json(r#"{"name": "Jerry", "age": 30}"#)),
            raw: Some("{\"name\": \"Jerry\", \"age\": 30}"),
            output_tokens: 10,
        },
    );
    // A block that is JSON and breaks the schema
    run(
        &function_config,
        &inference_config,
        Case {
            content: vec![text(r#"{"name": "Jerry", "age": "thirty"}"#)],
            finish_reason: Some(FinishReason::ToolCall),
            parsed: None,
            raw: Some("{\"name\": \"Jerry\", \"age\": \"thirty\"}"),
            output_tokens: 10,
        },
    );
    // A tool call with bad output
    run(
        &function_config,
        &inference_config,
        Case {
            content: vec![tool("tool_call_arguments")],
            finish_reason: Some(FinishReason::ToolCall),
            parsed: None,
            raw: Some("tool_call_arguments"),
            output_tokens: 10,
        },
    );
    // A tool call with good output
    run(
        &function_config,
        &inference_config,
        Case {
            content: vec![tool(r#"{"name": "Jerry", "age": 30}"#)],
            finish_reason: Some(FinishReason::ContentFilter),
            parsed: Some(json(r#"{"name": "Jerry", "age": 30}"#)),
            raw: Some(r#"{"name": "Jerry", "age": 30}"#),
            output_tokens: 10,
        },
    );
    // No content blocks
    run(
        &function_config,
        &inference_config,
        Case {
            content: Vec::new(),
            finish_reason: Some(FinishReason::Stop),
            parsed: None,
            raw: None,
            output_tokens: 0,
        },
    );

    let dynamic_output_schema = DynamicJSONSchema::new(json(
        r#"{
            "type": "object",
            "properties": { "answer": { "type": "string" } },
            "required": ["answer"]
        }"#,
    ));
    let inference_config = config(Some(&dynamic_output_schema));
    run(
        &function_config,
        &inference_config,
        Case {
            content: vec![text(r#"{"answer": "42"}"#)],
            finish_reason: Some(FinishReason::Stop),
            parsed: Some(json(r#"{"answer": "42"}"#)),
            raw: Some(r#"{"answer": "42"}"#),
            output_tokens: 10,
        },
    );
    run(
        &function_config,
        &inference_config,
        Case {
            content: vec![text(r#"{"response": "forty-two"}"#)],
            finish_reason: None,
            parsed: None,
            raw: Some(r#"{"response": "forty-two"}"#),
            output_tokens: 10,
        },
    );
    run(
        &function_config,
        &inference_config,
        Case {
            content: vec![tool("tool_call_arguments")],
            finish_reason: Some(FinishReason::ToolCall),
            parsed: None,
            raw: Some("tool_call_arguments"),
            output_tokens: 10,
        },
    );
    run(
        &function_config,
        &inference_config,
        Case {
            content: vec![tool(r#"{"answer": "42"}"#)],
            finish_reason: None,
            parsed: Some(json(r#"{"answer": "42"}"#)),
            raw: Some(r#"{"answer": "42"}"#),
            output_tokens: 10,
        },
    );

    // An empty output schema
    let function_config = json_function(&json("{}"));
    let inference_config = config(None);
    run(
        &function_config,
        &inference_config,
        Case {
            content: vec![text(r#"{"answer": "42"}"#)],
            finish_reason: Some(FinishReason::Stop),
            parsed: Some(json(r#"{"answer": "42"}"#)),
            raw: Some(r#"{"answer": "42"}"#),
            output_tokens: 10,
        },
    );
}

#[test]
fn json_output_keeps_auxiliary_blocks_and_schema() {
    let schema = person_schema();
    let function_config = json_function(&schema);
    let inference_config = config(None);
    let thought = ContentBlockOutput::Thought(Thought { text: "hm".to_string(), signature: None });
    let content =
        vec![text("not this"), thought.clone(), tool(r#"{"name": "Jerry", "age": 30}"#), thought.clone()];
    let usage = Usage { input_tokens: 1, output_tokens: 2 };
    let response = function_config
        .prepare_response(
            Uuid::now_v7(),
            content,
            usage,
            vec![],
            &inference_config,
            InferenceParams::default(),
            Some("original".to_string()),
            3,
        )
        .unwrap();
    let InferenceResult::Json(result) = response else { panic!("Expected a JSON inference result") };
    assert_eq!(result.json_block_index, Some(2));
    assert_eq!(result.auxiliary_content, vec![text("not this"), thought.clone(), thought]);
    assert_eq!(result.output_schema, schema);
    assert_eq!(result.original_response, Some("original".to_string()));
    assert_eq!(result.finish_reason, None);
    assert_eq!(result.output.parsed, Some(json(r#"{"name": "Jerry", "age": 30}"#)));
}

#[test]
fn chat_response_mirrors_the_blocks() {
    let function_config = FunctionConfig::Chat(FunctionConfigChat::default());
    let inference_config = config(None);
    let content = vec![text("Hello"), tool("{}"), text("again")];
    let usage = Usage { input_tokens: 3, output_tokens: 4 };
    let first = model_response(&content, usage, Some(FinishReason::Length));
    let last = model_response(&content, usage, Some(FinishReason::Stop));
    let id = Uuid::now_v7();
    let response = function_config
        .prepare_response(
            id,
            content.clone(),
            usage,
            vec![first.clone(), last.clone()],
            &inference_config,
            InferenceParams::default(),
            None,
            99,
        )
        .unwrap();
    let InferenceResult::Chat(result) = response else { panic!("Expected a chat inference result") };
    assert_eq!(result.inference_id, id);
    assert_eq!(result.content, content);
    assert_eq!(result.usage, usage);
    assert_eq!(result.created, 99);
    assert_eq!(result.finish_reason, Some(FinishReason::Stop));
    assert_eq!(result.model_inference_results, vec![first, last]);
}

#[test]
fn output_parts() {
    let value = json("[1]");
    let kept = JsonInferenceOutput::from_parts(Some("[1]".to_string()), Some(value.clone()), true);
    assert_eq!(kept.parsed, Some(value.clone()));
    assert_eq!(kept.raw, Some("[1]".to_string()));
    let dropped = JsonInferenceOutput::from_parts(Some("[1]".to_string()), Some(value), false);
    assert_eq!(dropped.parsed, None);
    assert_eq!(dropped.raw, Some("[1]".to_string()));
}

#[test]
fn schema_check_reports() {
    let schema = person_schema();
    let instance = json(r#"{"name": 1}"#);
    assert!(report_schema_check(Some(vec![]), &instance, &schema).is_ok());
    let error = report_schema_check(Some(vec!["a".to_string(), "b".to_string()]), &instance, &schema)
        .unwrap_err();
    assert_eq!(
        error.get_details(),
        &ErrorDetails::JsonSchemaValidation {
            messages: vec!["a".to_string(), "b".to_string()],
            data: Box::new(instance.clone()),
            schema: Box::new(schema.clone()),
        }
    );
    assert_eq!(
        error.message(),
        format!("JSON Schema validation failed:\na\nb\nData: {instance}\nSchema: {schema}")
    );
    assert_eq!(error.status_code(), 400);
    let error = report_schema_check(None, &instance, &schema).unwrap_err();
    assert_eq!(
        error.get_details(),
        &ErrorDetails::JsonSchema { message: "The JSON Schema is invalid".to_string() }
    );

    // Through the validator: two violations, both reported; a schema that is none.
    let error = validate_against(&schema, &instance).unwrap_err();
    let ErrorDetails::JsonSchemaValidation { messages, .. } = error.get_details() else {
        panic!("Expected a validation error")
    };
    assert_eq!(messages.len(), 2);
    assert!(validate_against(&schema, &json(r#"{"name": "a", "age": 1}"#)).is_ok());
    let not_a_schema = json(r#"{"type": 12}"#);
    assert!(validate_against(&not_a_schema, &instance).is_err());
    assert!(StaticJSONSchema::from_value(&not_a_schema).is_err());
    assert_eq!(StaticJSONSchema::from_value(&schema).unwrap().value, schema);
}
