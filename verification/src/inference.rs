//! The parameters of an inference and the shapes of its result.

use vstd::prelude::*;
use serde_json::Value;
use uuid::Uuid;
use crate::jsonschema_util::DynamicJSONSchema;
use crate::tool::{DynamicToolParams, ToolCallConfig};
use crate::types::{ContentBlockOutput, FinishReason, Input, ModelInferenceResponseWithMetadata, Usage};
use crate::variant::JsonMode;

verus! {

/// A single-precision number, held by its bit pattern. The gateway hands such
/// numbers on to a provider and never computes with them.
#[derive(Debug, Clone, Copy, PartialEq, Eq, Structural)]
pub struct Real32 {
    pub bits: u32,
}

/// The parameters of a chat completion that a request may set.
#[derive(Debug, Clone, PartialEq)]
pub struct ChatCompletionInferenceParams {
    pub temperature: Option<Real32>,
    pub max_tokens: Option<u32>,
    pub seed: Option<u32>,
    pub top_p: Option<Real32>,
    pub presence_penalty: Option<Real32>,
    pub frequency_penalty: Option<Real32>,
    pub json_mode: Option<JsonMode>,
    pub stop_sequences: Option<Vec<String>>,
}

impl Default for ChatCompletionInferenceParams {
    fn default() -> (r: ChatCompletionInferenceParams)
        ensures
            r == (ChatCompletionInferenceParams {
                temperature: None,
                max_tokens: None,
                seed: None,
                top_p: None,
                presence_penalty: None,
                frequency_penalty: None,
                json_mode: None,
                stop_sequences: None,
            }),
    {
        ChatCompletionInferenceParams {
            temperature: None,
            max_tokens: None,
            seed: None,
            top_p: None,
            presence_penalty: None,
            frequency_penalty: None,
            json_mode: None,
            stop_sequences: None,
        }
    }
}

/// The parameters of an inference, by kind of variant.
#[derive(Debug, Clone, PartialEq)]
pub struct InferenceParams {
    pub chat_completion: ChatCompletionInferenceParams,
}

impl Default for InferenceParams {
    fn default() -> (r: InferenceParams)
        ensures
            r.chat_completion == (ChatCompletionInferenceParams {
                temperature: None,
                max_tokens: None,
                seed: None,
                top_p: None,
                presence_penalty: None,
                frequency_penalty: None,
                json_mode: None,
                stop_sequences: None,
            }),
    {
        InferenceParams { chat_completion: ChatCompletionInferenceParams::default() }
    }
}

/// A request for an inference.
#[derive(Debug, Clone, PartialEq)]
pub struct Params {
    pub function_name: Option<String>,
    pub model_name: Option<String>,
    pub episode_id: Option<Uuid>,
    pub input: Input,
    pub stream: Option<bool>,
    pub params: InferenceParams,
    pub variant_name: Option<String>,
    pub dynamic_tool_params: DynamicToolParams,
    pub output_schema: Option<Value>,
}

/// The identifiers of an inference and of its episode.
#[derive(Debug, Clone, PartialEq)]
pub struct InferenceIds {
    pub inference_id: Uuid,
    pub episode_id: Uuid,
}

/// What an inference is run with, for the time of one request.
#[derive(Debug)]
pub struct InferenceConfig<'a> {
    pub ids: InferenceIds,
    pub tool_config: Option<&'a ToolCallConfig>,
    pub function_name: &'a str,
    pub variant_name: Option<&'a str>,
    pub dynamic_output_schema: Option<&'a DynamicJSONSchema>,
    pub extra_cache_key: Option<String>,
}

/// The output of a JSON function: the text as the model gave it, and the
/// value read from it where it is JSON that matches the output schema.
#[derive(Debug, Clone, PartialEq)]
pub struct JsonInferenceOutput {
    pub raw: Option<String>,
    pub parsed: Option<Value>,
}

impl JsonInferenceOutput {
    /// The output for the text `raw`, the value `parsed` read from it, if
    /// any, and the verdict `valid` of the output schema on that value: the
    /// value stays only where the schema accepts it; the text stays in any case.
    pub fn from_parts(raw: Option<String>, parsed: Option<Value>, valid: bool) -> (r:
        JsonInferenceOutput)
        ensures
            r.raw == raw,
            r.parsed == (if valid {
                parsed
            } else {
                None
            }),
    {
        JsonInferenceOutput {
            raw,
            parsed: if valid {
                parsed
            } else {
                None
            },
        }
    }
}

/// The finish reason of a chain of attempts: that of the last one.
pub open spec fn last_finish_reason(results: Seq<ModelInferenceResponseWithMetadata>) -> Option<
    FinishReason,
> {
    if results.len() == 0 {
        None
    } else {
        results.last().finish_reason
    }
}

/// The finish reason of a chain of attempts: that of the last one.
pub fn get_finish_reason(results: &Vec<ModelInferenceResponseWithMetadata>) -> (r: Option<
    FinishReason,
>)
    ensures
        r == last_finish_reason(results@),
{
    if results.len() == 0 {
        None
    } else {
        results[results.len() - 1].finish_reason
    }
}

/// The result of an inference of a chat function.
#[derive(Debug, Clone, PartialEq)]
pub struct ChatInferenceResult {
    pub inference_id: Uuid,
    pub created: u64,
    pub content: Vec<ContentBlockOutput>,
    pub usage: Usage,
    pub model_inference_results: Vec<ModelInferenceResponseWithMetadata>,
    pub inference_params: InferenceParams,
    pub original_response: Option<String>,
    pub finish_reason: Option<FinishReason>,
}

impl ChatInferenceResult {
    /// The result that mirrors the blocks of the answer, in their order,
    /// with the finish reason of the last attempt.
    pub fn new(
        inference_id: Uuid,
        content: Vec<ContentBlockOutput>,
        usage: Usage,
        model_inference_results: Vec<ModelInferenceResponseWithMetadata>,
        inference_params: InferenceParams,
        original_response: Option<String>,
        created: u64,
    ) -> (r: ChatInferenceResult)
        ensures
            r == (ChatInferenceResult {
                inference_id,
                created,
                content,
                usage,
                model_inference_results,
                inference_params,
                original_response,
                finish_reason: last_finish_reason(model_inference_results@),
            }),
    {
        let finish_reason = get_finish_reason(&model_inference_results);
        ChatInferenceResult {
            inference_id,
            created,
            content,
            usage,
            model_inference_results,
            inference_params,
            original_response,
            finish_reason,
        }
    }
}

/// The result of an inference of a JSON function.
#[derive(Debug, Clone, PartialEq)]
pub struct JsonInferenceResult {
    pub inference_id: Uuid,
    pub created: u64,
    pub output: JsonInferenceOutput,
    /// The place, among the blocks of the answer, of the one that held the output.
    pub json_block_index: Option<usize>,
    /// The other blocks of the answer, in their order.
    pub auxiliary_content: Vec<ContentBlockOutput>,
    pub usage: Usage,
    pub model_inference_results: Vec<ModelInferenceResponseWithMetadata>,
    pub output_schema: Value,
    pub inference_params: InferenceParams,
    pub original_response: Option<String>,
    pub finish_reason: Option<FinishReason>,
}

impl JsonInferenceResult {
    /// The result of these parts, with the finish reason of the last attempt.
    pub fn new(
        inference_id: Uuid,
        raw: Option<String>,
        parsed: Option<Value>,
        json_block_index: Option<usize>,
        auxiliary_content: Vec<ContentBlockOutput>,
        usage: Usage,
        model_inference_results: Vec<ModelInferenceResponseWithMetadata>,
        output_schema: Value,
        inference_params: InferenceParams,
        original_response: Option<String>,
        created: u64,
    ) -> (r: JsonInferenceResult)
        ensures
            r == (JsonInferenceResult {
                inference_id,
                created,
                output: JsonInferenceOutput { raw, parsed },
                json_block_index,
                auxiliary_content,
                usage,
                model_inference_results,
                output_schema,
                inference_params,
                original_response,
                finish_reason: last_finish_reason(model_inference_results@),
            }),
    {
        let finish_reason = get_finish_reason(&model_inference_results);
        JsonInferenceResult {
            inference_id,
            created,
            output: JsonInferenceOutput { raw, parsed },
            json_block_index,
            auxiliary_content,
            usage,
            model_inference_results,
            output_schema,
            inference_params,
            original_response,
            finish_reason,
        }
    }
}

/// The result of an inference.
#[derive(Debug, Clone, PartialEq)]
pub enum InferenceResult {
    Chat(ChatInferenceResult),
    Json(JsonInferenceResult),
}

} // verus!
