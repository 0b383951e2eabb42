//! Credentials of model providers, and the request that a provider is asked
//! to answer.

use vstd::prelude::*;
use serde_json::Value;
use uuid::Uuid;
use crate::inference::Real32;
use crate::providers::helpers::{ExtraBodyReplacement, ExtraHeader};
use crate::table::NameTable;
use crate::tool::ToolCallConfig;
use crate::types::RequestMessage;

verus! {

/// Where the key of a provider is found.
#[derive(Debug, Clone, PartialEq)]
pub enum CredentialLocation {
    /// In the environment variable of this name.
    Env(String),
    /// In the file whose path the environment variable of this name holds.
    PathFromEnv(String),
    /// In the request, under this name.
    Dynamic(String),
    /// In the file at this path.
    Path(String),
    /// With the provider's own tools.
    Sdk,
    /// Nowhere: the provider is called without a key.
    Absent,
}

/// The key of a provider. A key cannot be printed; only `expose_secret`
/// gives its text.
#[derive(Clone, PartialEq)]
pub struct ApiKey {
    secret: String,
}

impl ApiKey {
    /// The text of the key.
    pub closed spec fn text(self) -> Seq<char> {
        self.secret@
    }

    /// The key with the text `secret`.
    pub fn new(secret: String) -> (k: ApiKey)
        ensures
            k.text() == secret@,
    {
        ApiKey { secret }
    }

    /// The text of the key, for the one place that sends it.
    pub fn expose_secret(&self) -> (s: &str)
        ensures
            s@ == self.text(),
    {
        self.secret.as_str()
    }
}

/// The credentials of a provider, as the configuration resolves them.
#[derive(Clone, PartialEq)]
pub enum Credential {
    Static(ApiKey),
    FileContents(ApiKey),
    Dynamic(String),
    Sdk,
    Absent,
    /// A key was to be found and was not.
    Missing,
}

/// The keys that a request brings, by name.
pub type InferenceCredentials = NameTable<ApiKey>;

/// How a request asks a model for JSON.
#[derive(Debug, Clone, Copy, PartialEq, Eq, Structural)]
pub enum ModelInferenceRequestJsonMode {
    Off,
    On,
    Strict,
}

/// The kind of function that a request serves.
#[derive(Debug, Clone, Copy, PartialEq, Eq, Structural)]
pub enum FunctionType {
    Chat,
    Json,
}

/// What a model is asked, in the gateway's own terms.
#[derive(Debug, Clone, PartialEq)]
pub struct ModelInferenceRequest {
    pub inference_id: Uuid,
    pub messages: Vec<RequestMessage>,
    pub system: Option<String>,
    pub tool_config: Option<ToolCallConfig>,
    pub temperature: Option<Real32>,
    pub top_p: Option<Real32>,
    pub presence_penalty: Option<Real32>,
    pub frequency_penalty: Option<Real32>,
    pub max_tokens: Option<u32>,
    pub seed: Option<u32>,
    pub stream: bool,
    pub json_mode: ModelInferenceRequestJsonMode,
    pub function_type: FunctionType,
    pub output_schema: Option<Value>,
    pub stop_sequences: Option<Vec<String>>,
    /// Values to put into the body that goes to the provider.
    pub extra_body: Vec<ExtraBodyReplacement>,
    /// Headers to add to the request that goes to the provider.
    pub extra_headers: Vec<ExtraHeader>,
}

impl ModelInferenceRequest {
    /// A request with the identifier `inference_id` that asks nothing yet:
    /// no message, no tool, no parameter, no streaming, no JSON, nothing
    /// extra, for a chat function.
    pub fn new(inference_id: Uuid) -> (r: ModelInferenceRequest)
        ensures
            r == (ModelInferenceRequest {
                inference_id,
                messages: r.messages,
                system: None,
                tool_config: None,
                temperature: None,
                top_p: None,
                presence_penalty: None,
                frequency_penalty: None,
                max_tokens: None,
                seed: None,
                stream: false,
                json_mode: ModelInferenceRequestJsonMode::Off,
                function_type: FunctionType::Chat,
                output_schema: None,
                stop_sequences: None,
                extra_body: r.extra_body,
                extra_headers: r.extra_headers,
            }),
            r.messages@.len() == 0,
            r.extra_body@.len() == 0,
            r.extra_headers@.len() == 0,
    {
        ModelInferenceRequest {
            inference_id,
            messages: Vec::new(),
            system: None,
            tool_config: None,
            temperature: None,
            top_p: None,
            presence_penalty: None,
            frequency_penalty: None,
            max_tokens: None,
            seed: None,
            stream: false,
            json_mode: ModelInferenceRequestJsonMode::Off,
            function_type: FunctionType::Chat,
            output_schema: None,
            stop_sequences: None,
            extra_body: Vec::new(),
            extra_headers: Vec::new(),
        }
    }
}

} // verus!
