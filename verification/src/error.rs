//! The gateway's error type: a kind with its payload, a message and the HTTP
//! status that stands for the kind.

use vstd::prelude::*;
use serde_json::Value;
use crate::json::{json_text, json_to_string};
use crate::text::texts;

verus! {

/// What went wrong, by kind.
#[derive(Debug, PartialEq)]
pub enum ErrorDetails {
    ApiKeyMissing { provider_name: String },
    BadCredentialsPreInference { provider_name: String },
    ClickHouseDeserialization { message: String },
    ClickHouseQuery { message: String },
    Config { message: String },
    InferenceServer {
        message: String,
        provider_type: String,
        raw_request: Option<String>,
        raw_response: Option<String>,
    },
    InternalError { message: String },
    InvalidAuthToken { provider_name: String },
    InvalidBaseUrl { message: String },
    InvalidClientMode { mode: String, message: String },
    InvalidFunctionVariants { message: String },
    InvalidMessage { message: String },
    InvalidRequest { message: String },
    JsonRequest { message: String },
    JsonSchema { message: String },
    JsonSchemaValidation { messages: Vec<String>, data: Box<Value>, schema: Box<Value> },
    OutputParsing { message: String, raw_output: String },
    Serialization { message: String },
    StreamError { source: Box<Error> },
    ToolNotFound { name: String },
    UnsupportedModelProviderForBatchInference { provider_type: String },
    UserAlreadyExists { user_name: String },
}

/// An error of the gateway.
#[derive(Debug, PartialEq)]
pub struct Error {
    pub details: ErrorDetails,
}

/// Each message of `ms` on a line of its own.
pub open spec fn lines(ms: Seq<Seq<char>>) -> Seq<char>
    decreases ms.len(),
{
    if ms.len() == 0 {
        Seq::<char>::empty()
    } else {
        lines(ms.drop_last()) + "\n"@ + ms.last()
    }
}

fn join_lines(ms: &Vec<String>) -> (r: String)
    ensures
        r@ == lines(texts(ms@)),
{
    let mut r = String::new();
    let mut i: usize = 0;
    while i < ms.len()
        invariant
            i <= ms.len(),
            r@ == lines(texts(ms@).take(i as int)),
        decreases ms.len() - i,
    {
        r.append("\n");
        r.append(ms[i].as_str());
        proof {
            let t = texts(ms@);
            assert(t.take(i + 1).drop_last() =~= t.take(i as int));
            assert(t.take(i + 1).last() == ms@[i as int]@);
        }
        i = i + 1;
    }
    assert(texts(ms@).take(ms.len() as int) =~= texts(ms@));
    r
}

impl ErrorDetails {
    /// The HTTP status that stands for this kind of error: 400 for what the
    /// caller got wrong, 401 for an unknown bearer code, 500 for the rest.
    pub open spec fn status(self) -> u16 {
        match self {
            ErrorDetails::ApiKeyMissing { .. } => 400,
            ErrorDetails::BadCredentialsPreInference { .. } => 400,
            ErrorDetails::ClickHouseDeserialization { .. } => 500,
            ErrorDetails::ClickHouseQuery { .. } => 500,
            ErrorDetails::Config { .. } => 500,
            ErrorDetails::InferenceServer { .. } => 500,
            ErrorDetails::InternalError { .. } => 500,
            ErrorDetails::InvalidAuthToken { .. } => 401,
            ErrorDetails::InvalidBaseUrl { .. } => 400,
            ErrorDetails::InvalidClientMode { .. } => 400,
            ErrorDetails::InvalidFunctionVariants { .. } => 500,
            ErrorDetails::InvalidMessage { .. } => 400,
            ErrorDetails::InvalidRequest { .. } => 400,
            ErrorDetails::JsonRequest { .. } => 400,
            ErrorDetails::JsonSchema { .. } => 500,
            ErrorDetails::JsonSchemaValidation { .. } => 400,
            ErrorDetails::OutputParsing { .. } => 500,
            ErrorDetails::Serialization { .. } => 500,
            ErrorDetails::StreamError { .. } => 500,
            ErrorDetails::ToolNotFound { .. } => 400,
            ErrorDetails::UnsupportedModelProviderForBatchInference { .. } => 400,
            ErrorDetails::UserAlreadyExists { .. } => 400,
        }
    }

    /// The message of this error, as it is shown to a caller.
    pub open spec fn text(self) -> Seq<char>
        decreases self,
    {
        match self {
            ErrorDetails::ApiKeyMissing { provider_name } => "API key missing for provider: "@
                + provider_name@,
            ErrorDetails::BadCredentialsPreInference { provider_name } =>
                "Bad credentials for provider: "@ + provider_name@,
            ErrorDetails::ClickHouseDeserialization { message } =>
                "Error deserializing ClickHouse response: "@ + message@,
            ErrorDetails::ClickHouseQuery { message } => "Failed to run ClickHouse query: "@
                + message@,
            ErrorDetails::Config { message } => message@,
            ErrorDetails::InferenceServer { message, provider_type, .. } => "Error from "@
                + provider_type@ + " server: "@ + message@,
            ErrorDetails::InternalError { message } => "Internal error: "@ + message@,
            ErrorDetails::InvalidAuthToken { provider_name } => "Invalid auth token for provider: "@
                + provider_name@,
            ErrorDetails::InvalidBaseUrl { message } => message@,
            ErrorDetails::InvalidClientMode { mode, message } => "Invalid client mode: "@ + mode@
                + ". "@ + message@,
            ErrorDetails::InvalidFunctionVariants { message } => message@,
            ErrorDetails::InvalidMessage { message } => message@,
            ErrorDetails::InvalidRequest { message } => message@,
            ErrorDetails::JsonRequest { message } => message@,
            ErrorDetails::JsonSchema { message } => message@,
            ErrorDetails::JsonSchemaValidation { messages, data, schema } =>
                "JSON Schema validation failed:"@ + lines(texts(messages@)) + "\nData: "@
                    + json_text(*data) + "\nSchema: "@ + json_text(*schema),
            ErrorDetails::OutputParsing { message, raw_output } =>
                "Error parsing output as JSON with message: "@ + message@ + ": "@ + raw_output@,
            ErrorDetails::Serialization { message } => message@,
            ErrorDetails::StreamError { source } => "Error in streaming response: "@
                + source.details.text(),
            ErrorDetails::ToolNotFound { name } => "Tool not found: "@ + name@,
            ErrorDetails::UnsupportedModelProviderForBatchInference { provider_type } =>
                "Unsupported model provider for batch inference: "@ + provider_type@,
            ErrorDetails::UserAlreadyExists { user_name } => "User already exists: "@ + user_name@,
        }
    }

    /// The message of this error at length: for an error of a provider's
    /// server, the message followed by the request and the answer as they
    /// went over the wire, as far as they are known; for any other error,
    /// the message.
    pub open spec fn verbose_text(self) -> Seq<char> {
        match self {
            ErrorDetails::InferenceServer { raw_request, raw_response, .. } => self.text()
                + "\nRaw request: "@ + (match raw_request {
                Some(t) => t@,
                None => Seq::<char>::empty(),
            }) + "\nRaw response: "@ + (match raw_response {
                Some(t) => t@,
                None => Seq::<char>::empty(),
            }),
            _ => self.text(),
        }
    }

    /// Writes the message of this error, at length where `verbose` says so,
    /// which may show what a model was asked and what it answered.
    pub fn display(&self, verbose: bool) -> (r: String)
        ensures
            r@ == (if verbose {
                self.verbose_text()
            } else {
                self.text()
            }),
    {
        let mut s = self.message();
        if verbose {
            if let ErrorDetails::InferenceServer { raw_request, raw_response, .. } = self {
                s.append("\nRaw request: ");
                match raw_request {
                    Some(t) => {
                        s.append(t.as_str());
                    },
                    None => {
                        assert(s@ + Seq::<char>::empty() =~= s@);
                    },
                }
                s.append("\nRaw response: ");
                match raw_response {
                    Some(t) => {
                        s.append(t.as_str());
                    },
                    None => {
                        assert(s@ + Seq::<char>::empty() =~= s@);
                    },
                }
            }
        }
        s
    }

    /// The HTTP status that stands for this kind of error.
    pub fn status_code(&self) -> (r: u16)
        ensures
            r == self.status(),
    {
        match self {
            ErrorDetails::ApiKeyMissing { .. } => 400,
            ErrorDetails::BadCredentialsPreInference { .. } => 400,
            ErrorDetails::ClickHouseDeserialization { .. } => 500,
            ErrorDetails::ClickHouseQuery { .. } => 500,
            ErrorDetails::Config { .. } => 500,
            ErrorDetails::InferenceServer { .. } => 500,
            ErrorDetails::InternalError { .. } => 500,
            ErrorDetails::InvalidAuthToken { .. } => 401,
            ErrorDetails::InvalidBaseUrl { .. } => 400,
            ErrorDetails::InvalidClientMode { .. } => 400,
            ErrorDetails::InvalidFunctionVariants { .. } => 500,
            ErrorDetails::InvalidMessage { .. } => 400,
            ErrorDetails::InvalidRequest { .. } => 400,
            ErrorDetails::JsonRequest { .. } => 400,
            ErrorDetails::JsonSchema { .. } => 500,
            ErrorDetails::JsonSchemaValidation { .. } => 400,
            ErrorDetails::OutputParsing { .. } => 500,
            ErrorDetails::Serialization { .. } => 500,
            ErrorDetails::StreamError { .. } => 500,
            ErrorDetails::ToolNotFound { .. } => 400,
            ErrorDetails::UnsupportedModelProviderForBatchInference { .. } => 400,
            ErrorDetails::UserAlreadyExists { .. } => 400,
        }
    }

    /// Writes the message of this error.
    pub fn message(&self) -> (r: String)
        ensures
            r@ == self.text(),
        decreases self,
    {
        match self {
            ErrorDetails::ApiKeyMissing { provider_name } => {
                let mut s = String::from_str("API key missing for provider: ");
                s.append(provider_name.as_str());
                s
            },
            ErrorDetails::BadCredentialsPreInference { provider_name } => {
                let mut s = String::from_str("Bad credentials for provider: ");
                s.append(provider_name.as_str());
                s
            },
            ErrorDetails::ClickHouseDeserialization { message } => {
                let mut s = String::from_str("Error deserializing ClickHouse response: ");
                s.append(message.as_str());
                s
            },
            ErrorDetails::ClickHouseQuery { message } => {
                let mut s = String::from_str("Failed to run ClickHouse query: ");
                s.append(message.as_str());
                s
            },
            ErrorDetails::Config { message } => message.clone(),
            ErrorDetails::InferenceServer { message, provider_type, .. } => {
                let mut s = String::from_str("Error from ");
                s.append(provider_type.as_str());
                s.append(" server: ");
                s.append(message.as_str());
                s
            },
            ErrorDetails::InternalError { message } => {
                let mut s = String::from_str("Internal error: ");
                s.append(message.as_str());
                s
            },
            ErrorDetails::InvalidAuthToken { provider_name } => {
                let mut s = String::from_str("Invalid auth token for provider: ");
                s.append(provider_name.as_str());
                s
            },
            ErrorDetails::InvalidBaseUrl { message } => message.clone(),
            ErrorDetails::InvalidClientMode { mode, message } => {
                let mut s = String::from_str("Invalid client mode: ");
                s.append(mode.as_str());
                s.append(". ");
                s.append(message.as_str());
                s
            },
            ErrorDetails::InvalidFunctionVariants { message } => message.clone(),
            ErrorDetails::InvalidMessage { message } => message.clone(),
            ErrorDetails::InvalidRequest { message } => message.clone(),
            ErrorDetails::JsonRequest { message } => message.clone(),
            ErrorDetails::JsonSchema { message } => message.clone(),
            ErrorDetails::JsonSchemaValidation { messages, data, schema } => {
                let mut s = String::from_str("JSON Schema validation failed:");
                let joined = join_lines(messages);
                s.append(joined.as_str());
                s.append("\nData: ");
                let d = json_to_string(data);
                s.append(d.as_str());
                s.append("\nSchema: ");
                let sc = json_to_string(schema);
                s.append(sc.as_str());
                s
            },
            ErrorDetails::OutputParsing { message, raw_output } => {
                let mut s = String::from_str("Error parsing output as JSON with message: ");
                s.append(message.as_str());
                s.append(": ");
                s.append(raw_output.as_str());
                s
            },
            ErrorDetails::Serialization { message } => message.clone(),
            ErrorDetails::StreamError { source } => {
                let mut s = String::from_str("Error in streaming response: ");
                let inner = source.details.message();
                s.append(inner.as_str());
                s
            },
            ErrorDetails::ToolNotFound { name } => {
                let mut s = String::from_str("Tool not found: ");
                s.append(name.as_str());
                s
            },
            ErrorDetails::UnsupportedModelProviderForBatchInference { provider_type } => {
                let mut s = String::from_str("Unsupported model provider for batch inference: ");
                s.append(provider_type.as_str());
                s
            },
            ErrorDetails::UserAlreadyExists { user_name } => {
                let mut s = String::from_str("User already exists: ");
                s.append(user_name.as_str());
                s
            },
        }
    }
}

impl Error {
    /// An error of the given kind.
    pub fn new(details: ErrorDetails) -> (e: Error)
        ensures
            e.details == details,
    {
        Error { details }
    }

    /// The kind of this error.
    pub fn get_details(&self) -> (d: &ErrorDetails)
        ensures
            *d == self.details,
    {
        &self.details
    }

    /// The HTTP status that stands for this error.
    pub fn status_code(&self) -> (r: u16)
        ensures
            r == self.details.status(),
    {
        self.details.status_code()
    }

    /// Writes the message of this error.
    pub fn message(&self) -> (r: String)
        ensures
            r@ == self.details.text(),
    {
        self.details.message()
    }

    /// This error is an `InvalidMessage` with the text `t`.
    pub open spec fn is_invalid_message(self, t: Seq<char>) -> bool {
        self.details matches ErrorDetails::InvalidMessage { message } && message@ == t
    }

    /// This error is an `InvalidRequest` with the text `t`.
    pub open spec fn is_invalid_request(self, t: Seq<char>) -> bool {
        self.details matches ErrorDetails::InvalidRequest { message } && message@ == t
    }

    /// This error is an `InvalidFunctionVariants` with the text `t`.
    pub open spec fn is_invalid_variants(self, t: Seq<char>) -> bool {
        self.details matches ErrorDetails::InvalidFunctionVariants { message } && message@ == t
    }

    /// This error is a `Config` error with the text `t`.
    pub open spec fn is_config(self, t: Seq<char>) -> bool {
        self.details matches ErrorDetails::Config { message } && message@ == t
    }

    /// This error is a `Serialization` error with the text `t`.
    pub open spec fn is_serialization(self, t: Seq<char>) -> bool {
        self.details matches ErrorDetails::Serialization { message } && message@ == t
    }

    /// This error is a `JsonSchema` error with the text `t`.
    pub open spec fn is_json_schema(self, t: Seq<char>) -> bool {
        self.details matches ErrorDetails::JsonSchema { message } && message@ == t
    }

    /// This error says that the tool `name` is not known.
    pub open spec fn is_tool_not_found(self, name: Seq<char>) -> bool {
        self.details matches ErrorDetails::ToolNotFound { name: n } && n@ == name
    }
}

impl From<ErrorDetails> for Error {
    fn from(details: ErrorDetails) -> (e: Error) {
        Error { details }
    }
}

impl vstd::std_specs::convert::FromSpecImpl<ErrorDetails> for Error {
    open spec fn obeys_from_spec() -> bool {
        true
    }

    open spec fn from_spec(details: ErrorDetails) -> Error {
        Error { details }
    }
}

} // verus!
