//! The client of a gateway: one surface over a gateway that is reached over
//! HTTP and over one that runs within the process. The client decides what
//! is sent where and what an answer means; the sending itself is not its part.

use vstd::prelude::*;
use serde_json::Value;
use std::time::Duration;
use url::Url;
use uuid::Uuid;
use crate::client_error::{other, ClientBuilderError, TensorZeroError, TensorZeroInternalError};
use crate::client_input::{adjusts, input_adjusted, try_adjust_tool_call_arguments, ClientInput};
use crate::error::{Error, ErrorDetails};
use crate::ids::{id_text, uuid_text};
use crate::json::{json_from_str, json_get, json_member, json_parse, json_text, json_to_string};
use crate::numeral::VersionFault;
use crate::streaming::{done_text, SseEvent, SseFault, SseFaultKind};
use crate::text::{decimal, decimal_string, opt_text, str_eq};
use crate::version::{min_version, version_fault_text};
use crate::web::{address_join, ensure_trailing_slash, url_joined, url_text, with_trailing_slash};

verus! {

/// How a client reaches its gateway.
pub enum ClientBuilderMode {
    /// Over HTTP, at this address.
    HTTPGateway { url: Url },
    /// Within the process, from a configuration file.
    EmbeddedGateway {
        config_file: Option<String>,
        clickhouse_url: Option<String>,
        /// The time that a call may take as a whole.
        timeout: Option<Duration>,
        verify_credentials: bool,
    },
}

/// Builds a client.
pub struct ClientBuilder {
    mode: ClientBuilderMode,
    verbose_errors: bool,
}

/// A gateway that is reached over HTTP.
pub struct HTTPGateway {
    /// The address of the gateway; its path ends in a slash.
    pub base_url: Url,
    /// The version that the gateway told of itself, once it has.
    pub gateway_version: Option<String>,
}

/// The gateway of a client.
pub enum ClientMode {
    HTTPGateway(HTTPGateway),
    EmbeddedGateway { timeout: Option<Duration> },
}

/// A client of a gateway.
pub struct Client {
    mode: ClientMode,
    verbose_errors: bool,
}

impl ClientBuilder {
    /// The mode that the builder was made with.
    pub closed spec fn mode(self) -> ClientBuilderMode {
        self.mode
    }

    /// Whether errors are to be shown at length.
    pub closed spec fn verbose(self) -> bool {
        self.verbose_errors
    }

    /// A builder for a client of the given mode, with short errors.
    pub fn new(mode: ClientBuilderMode) -> (b: ClientBuilder)
        ensures
            b.mode() == mode,
            !b.verbose(),
    {
        ClientBuilder { mode, verbose_errors: false }
    }

    /// Sets whether errors are to be shown at length, which may show what a
    /// model answered.
    pub fn with_verbose_errors(self, verbose_errors: bool) -> (b: ClientBuilder)
        ensures
            b.mode() == self.mode(),
            b.verbose() == verbose_errors,
    {
        ClientBuilder { mode: self.mode, verbose_errors }
    }

    /// Builds a client of a gateway that is reached over HTTP. The path of
    /// the gateway's address is made to end in a slash, so that the path of
    /// an endpoint is added to it and does not take the place of its last
    /// part. A builder of the other mode gives `NotHTTPGateway`.
    pub fn build_http(self) -> (r: Result<Client, ClientBuilderError>)
        ensures
            match self.mode() {
                ClientBuilderMode::HTTPGateway { url } => {
                    &&& r matches Ok(client)
                    &&& client.mode() matches ClientMode::HTTPGateway(gateway)
                    &&& url_text(gateway.base_url) == with_trailing_slash(url_text(url))
                    &&& gateway.gateway_version is None
                    &&& client.verbose() == self.verbose()
                },
                _ => r matches Err(ClientBuilderError::NotHTTPGateway),
            },
    {
        match self.mode {
            ClientBuilderMode::HTTPGateway { url } => Ok(
                Client {
                    mode: ClientMode::HTTPGateway(
                        HTTPGateway { base_url: ensure_trailing_slash(url), gateway_version: None },
                    ),
                    verbose_errors: self.verbose_errors,
                },
            ),
            _ => Err(ClientBuilderError::NotHTTPGateway),
        }
    }

    /// Builds a client of either mode. For a gateway within the process,
    /// the client keeps the timeout; loading the configuration and making
    /// the connections is left to the caller. A gateway over HTTP is built
    /// as by `build_http`.
    pub fn build(self) -> (r: Result<Client, ClientBuilderError>)
        ensures
            match self.mode() {
                ClientBuilderMode::EmbeddedGateway { timeout, .. } => {
                    &&& r matches Ok(client)
                    &&& client.mode() == (ClientMode::EmbeddedGateway { timeout })
                    &&& client.verbose() == self.verbose()
                },
                ClientBuilderMode::HTTPGateway { url } => {
                    &&& r matches Ok(client)
                    &&& client.mode() matches ClientMode::HTTPGateway(gateway)
                    &&& url_text(gateway.base_url) == with_trailing_slash(url_text(url))
                    &&& gateway.gateway_version is None
                    &&& client.verbose() == self.verbose()
                },
            },
    {
        match self.mode {
            ClientBuilderMode::EmbeddedGateway { timeout, .. } => Ok(
                Client {
                    mode: ClientMode::EmbeddedGateway { timeout },
                    verbose_errors: self.verbose_errors,
                },
            ),
            ClientBuilderMode::HTTPGateway { url } => Ok(
                Client {
                    mode: ClientMode::HTTPGateway(
                        HTTPGateway { base_url: ensure_trailing_slash(url), gateway_version: None },
                    ),
                    verbose_errors: self.verbose_errors,
                },
            ),
        }
    }
}

/// An operation of the gateway.
pub enum Operation {
    Status,
    Feedback,
    Inference,
    /// The object at the storage path with this JSON text.
    GetObject { storage_path: String },
    DynamicEvaluationRun,
    DynamicEvaluationRunEpisode { run_id: Uuid },
    BulkInsertDatapoints { dataset_name: String },
    DeleteDatapoint { dataset_name: String, datapoint_id: Uuid },
    ListDatapoints {
        dataset_name: String,
        function_name: Option<String>,
        limit: Option<u32>,
        offset: Option<u32>,
    },
    GetDatapoint { dataset_name: String, datapoint_id: Uuid },
    ListInferences,
    RenderInferences,
    LaunchOptimization,
    LaunchOptimizationWorkflow,
    PollOptimization,
    ClickhouseHealth,
}

/// The method of an HTTP request.
#[derive(Debug, Clone, Copy, PartialEq, Eq, Structural)]
pub enum HttpMethod {
    Get,
    Post,
    Delete,
}

/// What a client does to carry out an operation.
pub enum Dispatch {
    /// It sends an HTTP request: with this method, to this address, with
    /// these query parameters, and with the parameters of the operation as
    /// a JSON body where `json_body` says so.
    Http { method: HttpMethod, url: Url, query: Vec<(String, String)>, json_body: bool },
    /// It calls the gateway within the process, for no longer than `timeout`.
    Embedded { timeout: Option<Duration> },
    /// Nothing: the operation has nothing to do in this mode.
    Nothing,
}

impl Operation {
    /// Whether the operation exists only for a gateway within the process.
    pub open spec fn embedded_only(self) -> bool {
        self is ListInferences || self is RenderInferences || self is LaunchOptimization
            || self is LaunchOptimizationWorkflow || self is PollOptimization
    }

    /// The method of the HTTP request of the operation.
    pub open spec fn method(self) -> HttpMethod {
        match self {
            Operation::Status => HttpMethod::Get,
            Operation::GetObject { .. } => HttpMethod::Get,
            Operation::ListDatapoints { .. } => HttpMethod::Get,
            Operation::GetDatapoint { .. } => HttpMethod::Get,
            Operation::DeleteDatapoint { .. } => HttpMethod::Delete,
            _ => HttpMethod::Post,
        }
    }

    /// Whether the HTTP request of the operation carries a JSON body.
    pub open spec fn has_body(self) -> bool {
        self.method() == HttpMethod::Post
    }

    /// The path of the endpoint of the operation, below the gateway's address.
    pub open spec fn path(self) -> Seq<char> {
        match self {
            Operation::Status => "status"@,
            Operation::Feedback => "feedback"@,
            Operation::Inference => "inference"@,
            Operation::GetObject { .. } => "internal/object_storage"@,
            Operation::DynamicEvaluationRun => "dynamic_evaluation_run"@,
            Operation::DynamicEvaluationRunEpisode { run_id } => "dynamic_evaluation_run/"@ + uuid_text(
                run_id,
            ) + "/episode"@,
            Operation::BulkInsertDatapoints { dataset_name } => "datasets/"@ + dataset_name@
                + "/datapoints/bulk"@,
            Operation::DeleteDatapoint { dataset_name, datapoint_id } => "datasets/"@ + dataset_name@
                + "/datapoints/"@ + uuid_text(datapoint_id),
            Operation::ListDatapoints { dataset_name, .. } => "datasets/"@ + dataset_name@
                + "/datapoints"@,
            Operation::GetDatapoint { dataset_name, datapoint_id } => "datasets/"@ + dataset_name@
                + "/datapoints/"@ + uuid_text(datapoint_id),
            _ => Seq::<char>::empty(),
        }
    }

    /// The query parameters of the HTTP request of the operation, as pairs
    /// of views. A list of datapoints is asked for with a limit, a hundred
    /// where none is given, an offset, zero where none is given, and the
    /// name of the function where one is given.
    pub open spec fn query(self) -> Seq<(Seq<char>, Seq<char>)> {
        match self {
            Operation::GetObject { storage_path } => seq![("storage_path"@, storage_path@)],
            Operation::ListDatapoints { function_name, limit, offset, .. } => {
                let head = seq![
                    (
                        "limit"@,
                        decimal(
                            match limit {
                                Some(n) => n as nat,
                                None => 100,
                            },
                        ),
                    ),
                    (
                        "offset"@,
                        decimal(
                            match offset {
                                Some(n) => n as nat,
                                None => 0,
                            },
                        ),
                    ),
                ];
                match function_name {
                    Some(name) => head.push(("function_name"@, name@)),
                    None => head,
                }
            },
            _ => Seq::<(Seq<char>, Seq<char>)>::empty(),
        }
    }

    fn path_string(&self) -> (r: String)
        ensures
            r@ == self.path(),
    {
        match self {
            Operation::Status => String::from_str("status"),
            Operation::Feedback => String::from_str("feedback"),
            Operation::Inference => String::from_str("inference"),
            Operation::GetObject { .. } => String::from_str("internal/object_storage"),
            Operation::DynamicEvaluationRun => String::from_str("dynamic_evaluation_run"),
            Operation::DynamicEvaluationRunEpisode { run_id } => {
                let mut s = String::from_str("dynamic_evaluation_run/");
                let id = id_text(run_id);
                s.append(id.as_str());
                s.append("/episode");
                s
            },
            Operation::BulkInsertDatapoints { dataset_name } => {
                let mut s = String::from_str("datasets/");
                s.append(dataset_name.as_str());
                s.append("/datapoints/bulk");
                s
            },
            Operation::DeleteDatapoint { dataset_name, datapoint_id } => {
                let mut s = String::from_str("datasets/");
                s.append(dataset_name.as_str());
                s.append("/datapoints/");
                let id = id_text(datapoint_id);
                s.append(id.as_str());
                s
            },
            Operation::ListDatapoints { dataset_name, .. } => {
                let mut s = String::from_str("datasets/");
                s.append(dataset_name.as_str());
                s.append("/datapoints");
                s
            },
            Operation::GetDatapoint { dataset_name, datapoint_id } => {
                let mut s = String::from_str("datasets/");
                s.append(dataset_name.as_str());
                s.append("/datapoints/");
                let id = id_text(datapoint_id);
                s.append(id.as_str());
                s
            },
            _ => String::new(),
        }
    }

    fn http_method(&self) -> (r: HttpMethod)
        ensures
            r == self.method(),
    {
        match self {
            Operation::Status => HttpMethod::Get,
            Operation::GetObject { .. } => HttpMethod::Get,
            Operation::ListDatapoints { .. } => HttpMethod::Get,
            Operation::GetDatapoint { .. } => HttpMethod::Get,
            Operation::DeleteDatapoint { .. } => HttpMethod::Delete,
            _ => HttpMethod::Post,
        }
    }

    fn is_embedded_only(&self) -> (r: bool)
        ensures
            r == self.embedded_only(),
    {
        match self {
            Operation::ListInferences => true,
            Operation::RenderInferences => true,
            Operation::LaunchOptimization => true,
            Operation::LaunchOptimizationWorkflow => true,
            Operation::PollOptimization => true,
            _ => false,
        }
    }

    fn query_pairs(&self) -> (r: Vec<(String, String)>)
        ensures
            pair_views(r@) == self.query(),
    {
        let mut out: Vec<(String, String)> = Vec::new();
        match self {
            Operation::GetObject { storage_path } => {
                out.push((String::from_str("storage_path"), storage_path.clone()));
                assert(pair_views(out@) =~= self.query());
            },
            Operation::ListDatapoints { function_name, limit, offset, .. } => {
                let limit: u32 = match limit {
                    Some(n) => *n,
                    None => 100,
                };
                let offset: u32 = match offset {
                    Some(n) => *n,
                    None => 0,
                };
                out.push((String::from_str("limit"), decimal_string(limit as u64)));
                out.push((String::from_str("offset"), decimal_string(offset as u64)));
                if let Some(name) = function_name {
                    out.push((String::from_str("function_name"), name.clone()));
                }
                assert(pair_views(out@) =~= self.query());
            },
            _ => {
                assert(pair_views(out@) =~= self.query());
            },
        }
        out
    }
}

/// The views of a list of pairs of strings.
pub open spec fn pair_views(pairs: Seq<(String, String)>) -> Seq<(Seq<char>, Seq<char>)> {
    pairs.map_values(|p: (String, String)| (p.0@, p.1@))
}

/// The text of the error for an endpoint that cannot be joined to the
/// gateway's address.
pub open spec fn join_text(path: Seq<char>) -> Seq<char> {
    "Failed to join base URL with /"@ + path + " endpoint"@
}

/// The text of the error for an operation that a gateway over HTTP does not have.
pub open spec fn embedded_only_text() -> Seq<char> {
    "This function is only available in EmbeddedGateway mode"@
}

/// Says that `e` is the error for an operation that a gateway over HTTP
/// does not have.
pub open spec fn is_wrong_mode(e: TensorZeroError) -> bool {
    &&& e matches TensorZeroError::Other { source }
    &&& source.0.details matches ErrorDetails::InvalidClientMode { mode, message }
    &&& mode@ == "Http"@
    &&& message@ == embedded_only_text()
}

/// Says that `e` is the error for an endpoint that cannot be joined to the
/// gateway's address.
pub open spec fn is_join_error(e: TensorZeroError, path: Seq<char>) -> bool {
    &&& e matches TensorZeroError::Other { source }
    &&& source.0.details matches ErrorDetails::InvalidBaseUrl { message }
    &&& message@ == join_text(path)
}

fn join_error(path: &str) -> (e: TensorZeroError)
    ensures
        is_join_error(e, path@),
{
    let mut message = String::from_str("Failed to join base URL with /");
    message.append(path);
    message.append(" endpoint");
    other(ErrorDetails::InvalidBaseUrl { message })
}

/// Says that `r` is what the client `client` does to carry out `operation`.
pub open spec fn is_dispatch(r: Result<Dispatch, TensorZeroError>, mode: ClientMode, operation: Operation) -> bool {
    match mode {
        ClientMode::EmbeddedGateway { timeout } => if operation is Status {
            r matches Ok(Dispatch::Nothing)
        } else {
            r matches Ok(Dispatch::Embedded { timeout: t }) && t == timeout
        },
        ClientMode::HTTPGateway(gateway) => if operation.embedded_only() {
            r matches Err(e) && is_wrong_mode(e)
        } else if operation is ClickhouseHealth {
            r matches Ok(Dispatch::Nothing)
        } else {
            match url_joined(url_text(gateway.base_url), operation.path()) {
                None => r matches Err(e) && is_join_error(e, operation.path()),
                Some(address) => {
                    &&& r matches Ok(Dispatch::Http { method, url, query, json_body })
                    &&& method == operation.method()
                    &&& url_text(url) == address
                    &&& pair_views(query@) == operation.query()
                    &&& json_body == operation.has_body()
                },
            }
        },
    }
}

/// What came of sending an HTTP request, before the body of the answer is read.
pub enum Transport {
    /// An answer came, with this status and, where the gateway tells its
    /// version, that version.
    Answered { status: u16, gateway_version: Option<String> },
    /// No answer came; `timed_out` says whether the time ran out, `message`
    /// what went wrong.
    Failed { timed_out: bool, message: String },
}

/// What is done with the body of an answer.
#[derive(Debug, Clone, Copy, PartialEq, Eq, Structural)]
pub enum BodyUse {
    /// The body is the result of the operation, in JSON.
    Decode,
    /// The body tells what failed; it goes into an error with this status.
    Report { status: u16 },
}

/// Whether an HTTP status stands for a failure: those from 400 to 599 do.
pub open spec fn status_is_failure(status: u16) -> bool {
    400 <= status < 600
}

/// The text of the error for a request that got no answer.
pub open spec fn transport_text(message: Seq<char>) -> Seq<char> {
    "Error from server: "@ + message
}

/// The text of the error for an answer whose status stands for a failure.
pub open spec fn failure_text(message: Seq<char>) -> Seq<char> {
    "Request failed: "@ + message
}

/// The text of the error for an answer that is no JSON of the expected shape.
pub open spec fn decode_text(message: Seq<char>) -> Seq<char> {
    "Error deserializing response: "@ + message
}

/// Says that `e` is an `Other` around a `JsonRequest` error with the text `t`.
pub open spec fn is_request_error(e: TensorZeroError, t: Seq<char>) -> bool {
    &&& e matches TensorZeroError::Other { source }
    &&& source.0.details matches ErrorDetails::JsonRequest { message }
    &&& message@ == t
}

/// The error for an answer with the status `status`, which stands for a
/// failure: an HTTP error with that status and the text of the answer,
/// where it could be read. `message` describes the failure.
pub fn http_failure(status: u16, text: Option<String>, message: &str) -> (e: TensorZeroError)
    ensures
        ({
            &&& e matches TensorZeroError::Http { status_code, text: t, source }
            &&& status_code == status
            &&& t == text
            &&& source.0.details matches ErrorDetails::JsonRequest { message: m }
            &&& m@ == failure_text(message@)
        }),
{
    let mut m = String::from_str("Request failed: ");
    m.append(message);
    TensorZeroError::Http {
        status_code: status,
        text,
        source: TensorZeroInternalError(Error::new(ErrorDetails::JsonRequest { message: m })),
    }
}

/// The result of an operation from the decoded body of its answer:
/// `decoded` is the value read, or the text of what went wrong in reading
/// it, which gives a `Serialization` error.
pub fn decode_result<T>(decoded: Result<T, String>) -> (r: Result<T, TensorZeroError>)
    ensures
        match decoded {
            Ok(value) => r matches Ok(v) && v == value,
            Err(message) => {
                &&& r matches Err(e)
                &&& e matches TensorZeroError::Other { source }
                &&& source.0.is_serialization(decode_text(message@))
            },
        },
{
    match decoded {
        Ok(value) => Ok(value),
        Err(message) => {
            let mut m = String::from_str("Error deserializing response: ");
            m.append(message.as_str());
            Err(other(ErrorDetails::Serialization { message: m }))
        },
    }
}

/// The result of a call of a gateway within the process that may take no
/// longer than a set time: `outcome` is what the call returned, or nothing
/// where the time ran out first, which gives `RequestTimeout`.
pub fn with_embedded_timeout<R>(outcome: Option<Result<R, TensorZeroError>>) -> (r: Result<
    R,
    TensorZeroError,
>)
    ensures
        match outcome {
            Some(result) => r == result,
            None => r matches Err(TensorZeroError::RequestTimeout),
        },
{
    match outcome {
        Some(result) => result,
        None => Err(TensorZeroError::RequestTimeout),
    }
}

/// The text of the error for the deletion of a datapoint that failed.
pub open spec fn delete_text(message: Seq<char>) -> Seq<char> {
    "Error deleting datapoint: "@ + message
}

/// The result of the deletion of a datapoint over HTTP. `outcome` holds the
/// status of the answer and its text, empty where it could not be read; or
/// the text of what went wrong in sending the request.
pub fn delete_result(outcome: Result<(u16, String), String>) -> (r: Result<(), TensorZeroError>)
    ensures
        match outcome {
            Ok((status, text)) => if 200 <= status < 300 {
                r is Ok
            } else {
                r matches Err(e) && is_request_error(e, delete_text(text@))
            },
            Err(message) => r matches Err(e) && is_request_error(e, delete_text(message@)),
        },
{
    let text = match outcome {
        Ok((status, text)) => {
            if 200 <= status && status < 300 {
                return Ok(());
            }
            text
        },
        Err(message) => message,
    };
    let mut m = String::from_str("Error deleting datapoint: ");
    m.append(text.as_str());
    Err(other(ErrorDetails::JsonRequest { message: m }))
}

/// The version that a gateway is taken to have after an answer: the
/// override where there is one, else the version that the answer tells.
pub open spec fn told_version(header: Option<String>, version_override: Option<String>) -> Option<String> {
    match version_override {
        Some(v) => Some(v),
        None => header,
    }
}

/// The text of the error for the first event of a stream that is a fault,
/// and for a fault within a stream.
pub open spec fn stream_fault_text(message: Seq<char>) -> Seq<char> {
    "Error in streaming response: "@ + message
}

/// Says that `e` is a `StreamError` around a `Serialization` error with the text `t`.
pub open spec fn is_stream_error(e: Error, t: Seq<char>) -> bool {
    e.details matches ErrorDetails::StreamError { source } && source.is_serialization(t)
}

fn stream_error(message: String) -> (e: Error)
    ensures
        is_stream_error(e, message@),
{
    Error::new(
        ErrorDetails::StreamError {
            source: Box::new(Error::new(ErrorDetails::Serialization { message })),
        },
    )
}

/// Decides on the first event of a streamed inference, which is looked at
/// before the stream is handed to the caller. A fault there fails the whole
/// call: an HTTP status gives an HTTP error with that status and the text
/// of the answer, any other fault an error of the stream. Anything else
/// lets the stream go to the caller, first event and all.
pub fn check_first_event(first: Option<Result<SseEvent, SseFault>>) -> (r: Result<(), TensorZeroError>)
    ensures
        match first {
            Some(Err(fault)) => match fault.kind {
                SseFaultKind::InvalidStatusCode { status, body } => {
                    &&& r matches Err(TensorZeroError::Http { status_code, text, source })
                    &&& status_code == status
                    &&& text == body
                    &&& is_stream_error(source.0, stream_fault_text(fault.message@))
                },
                _ => {
                    &&& r matches Err(TensorZeroError::Other { source })
                    &&& source.0.details matches ErrorDetails::StreamError { source: inner }
                    &&& is_stream_error(*inner, stream_fault_text(fault.message@))
                },
            },
            _ => r is Ok,
        },
{
    match first {
        Some(Err(fault)) => {
            let SseFault { kind, message } = fault;
            let mut text = String::from_str("Error in streaming response: ");
            text.append(message.as_str());
            let inner = stream_error(text);
            match kind {
                SseFaultKind::InvalidStatusCode { status, body } => Err(
                    TensorZeroError::Http {
                        status_code: status,
                        text: body,
                        source: TensorZeroInternalError(inner),
                    },
                ),
                _ => Err(
                    TensorZeroError::Other {
                        source: TensorZeroInternalError(
                            Error::new(ErrorDetails::StreamError { source: Box::new(inner) }),
                        ),
                    },
                ),
            }
        },
        _ => Ok(()),
    }
}

/// What a client does about an event of a streamed inference.
#[derive(Debug, PartialEq)]
pub enum ClientStreamAction {
    /// Nothing: the next event is awaited.
    Skip,
    /// The stream is over.
    Stop,
    /// The value is a chunk of the answer, to be handed to the caller.
    Chunk(Value),
    /// The error goes to the caller, and the stream goes on.
    Fail(Error),
}

/// The text of the error for a frame that is no JSON.
pub open spec fn frame_text() -> Seq<char> {
    "Error deserializing inference response chunk"@
}

/// The text of the error for a frame that tells of an error.
pub open spec fn frame_error_text(error: Seq<char>) -> Seq<char> {
    "Stream produced an error: "@ + error
}

/// What a client does about the frame `data` of a streamed inference: the
/// sentinel `[DONE]` ends the stream; a frame that is no JSON gives an error
/// and the stream goes on; a JSON object with a member `error` gives an
/// error that tells it; any other JSON value is a chunk.
pub open spec fn is_frame_action(r: ClientStreamAction, data: Seq<char>) -> bool {
    if data == done_text() {
        r == ClientStreamAction::Stop
    } else {
        match json_parse(data) {
            None => r matches ClientStreamAction::Fail(e) && e.is_serialization(frame_text()),
            Some(value) => match json_member(value, "error"@) {
                Some(error) => r matches ClientStreamAction::Fail(e) && is_stream_error(
                    e,
                    frame_error_text(error),
                ),
                None => r matches ClientStreamAction::Chunk(v) && json_text(v) == value,
            },
        }
    }
}

/// Decides on a frame of a streamed inference, given the value read from
/// it, if it is JSON, and the member `error` of that value, if it has one.
pub fn frame_action(data: &str, value: Option<Value>, error: Option<Value>) -> (r: ClientStreamAction)
    ensures
        if data@ == done_text() {
            r == ClientStreamAction::Stop
        } else {
            match value {
                None => r matches ClientStreamAction::Fail(e) && e.is_serialization(frame_text()),
                Some(v) => match error {
                    Some(err) => r matches ClientStreamAction::Fail(e) && is_stream_error(
                        e,
                        frame_error_text(json_text(err)),
                    ),
                    None => r == ClientStreamAction::Chunk(v),
                },
            }
        },
{
    if str_eq(data, "[DONE]") {
        return ClientStreamAction::Stop;
    }
    match value {
        None => ClientStreamAction::Fail(
            Error::new(
                ErrorDetails::Serialization {
                    message: String::from_str("Error deserializing inference response chunk"),
                },
            ),
        ),
        Some(v) => match error {
            Some(err) => {
                let mut message = String::from_str("Stream produced an error: ");
                let text = json_to_string(&err);
                message.append(text.as_str());
                ClientStreamAction::Fail(stream_error(message))
            },
            None => ClientStreamAction::Chunk(v),
        },
    }
}

/// Decides on an event of a streamed inference. The opening of the stream
/// is passed over. The end of the transport ends the stream; any other
/// fault goes to the caller as an error, and the stream goes on. A frame is
/// decided on as `is_frame_action` says.
pub fn client_stream_event(event: Result<SseEvent, SseFault>) -> (r: ClientStreamAction)
    ensures
        match event {
            Ok(SseEvent::Open) => r == ClientStreamAction::Skip,
            Ok(SseEvent::Message { data }) => is_frame_action(r, data@),
            Err(fault) => if fault.kind is StreamEnded {
                r == ClientStreamAction::Stop
            } else {
                r matches ClientStreamAction::Fail(e) && is_stream_error(
                    e,
                    stream_fault_text(fault.message@),
                )
            },
        },
{
    match event {
        Ok(SseEvent::Open) => ClientStreamAction::Skip,
        Ok(SseEvent::Message { data }) => {
            if str_eq(data.as_str(), "[DONE]") {
                return ClientStreamAction::Stop;
            }
            let value = json_from_str(data.as_str());
            let error = match &value {
                Some(v) => json_get(v, "error"),
                None => None,
            };
            frame_action(data.as_str(), value, error)
        },
        Err(fault) => {
            let SseFault { kind, message } = fault;
            match kind {
                SseFaultKind::StreamEnded => ClientStreamAction::Stop,
                _ => {
                    let mut text = String::from_str("Error in streaming response: ");
                    text.append(message.as_str());
                    ClientStreamAction::Fail(stream_error(text))
                },
            }
        },
    }
}

/// The error for a chunk that is JSON and not of the shape of a chunk.
pub fn chunk_decode_error(message: &str) -> (e: Error)
    ensures
        e.is_serialization(
            "Error deserializing json value as InferenceResponseChunk: "@ + message@,
        ),
{
    let mut m = String::from_str("Error deserializing json value as InferenceResponseChunk: ");
    m.append(message);
    Error::new(ErrorDetails::Serialization { message: m })
}

/// The items of `items` whose outcome in `outcomes` is a success, in their
/// order.
pub open spec fn kept<T, E>(items: Seq<T>, outcomes: Seq<Result<(), E>>) -> Seq<T>
    decreases items.len(),
{
    if items.len() == 0 || outcomes.len() != items.len() {
        Seq::<T>::empty()
    } else if outcomes.last() is Ok {
        kept(items.drop_last(), outcomes.drop_last()).push(items.last())
    } else {
        kept(items.drop_last(), outcomes.drop_last())
    }
}

/// Keeps the items whose outcome is a success, in their order. The two
/// lists go together, one outcome for each item.
pub fn keep_resolved<T, E>(items: Vec<T>, outcomes: Vec<Result<(), E>>) -> (r: Vec<T>)
    requires
        items@.len() == outcomes@.len(),
    ensures
        r@ == kept(items@, outcomes@),
{
    let mut out: Vec<T> = Vec::new();
    let ghost all = items@;
    let n = items.len();
    let mut i: usize = 0;
    proof {
        assert(all.take(0) =~= Seq::<T>::empty());
        assert(outcomes@.take(0) =~= Seq::<Result<(), E>>::empty());
    }
    for item in it: items
        invariant
            it.seq() == all,
            all.len() == outcomes@.len(),
            all.len() == n,
            i == it.index(),
            out@ == kept(all.take(i as int), outcomes@.take(i as int)),
    {
        proof {
            assert(all.take(i + 1).drop_last() =~= all.take(i as int));
            assert(outcomes@.take(i + 1).drop_last() =~= outcomes@.take(i as int));
            assert(all.take(i + 1).last() == all[i as int]);
            assert(outcomes@.take(i + 1).last() == outcomes@[i as int]);
        }
        if outcomes[i].is_ok() {
            out.push(item);
        }
        i = i + 1;
    }
    proof {
        assert(all.take(all.len() as int) =~= all);
        assert(outcomes@.take(outcomes@.len() as int) =~= outcomes@);
    }
    out
}

/// The values of the outcomes that are a success, in their order.
pub open spec fn successes<T, E>(outcomes: Seq<Result<T, E>>) -> Seq<T>
    decreases outcomes.len(),
{
    if outcomes.len() == 0 {
        Seq::<T>::empty()
    } else {
        match outcomes.last() {
            Ok(v) => successes(outcomes.drop_last()).push(v),
            Err(_) => successes(outcomes.drop_last()),
        }
    }
}

/// Keeps the values of the outcomes that are a success, in their order.
pub fn keep_ok<T, E>(outcomes: Vec<Result<T, E>>) -> (r: Vec<T>)
    ensures
        r@ == successes(outcomes@),
{
    let mut out: Vec<T> = Vec::new();
    let ghost all = outcomes@;
    let ghost mut i: int = 0;
    proof {
        assert(all.take(0) =~= Seq::<Result<T, E>>::empty());
    }
    for outcome in it: outcomes
        invariant
            it.seq() == all,
            i == it.index(),
            out@ == successes(all.take(i)),
    {
        proof {
            assert(all.take(i + 1).drop_last() =~= all.take(i));
            assert(all.take(i + 1).last() == all[i]);
            i = i + 1;
        }
        if let Ok(v) = outcome {
            out.push(v);
        }
    }
    proof {
        assert(all.take(all.len() as int) =~= all);
    }
    out
}

impl Client {
    /// The gateway of the client.
    pub closed spec fn mode(self) -> ClientMode {
        self.mode
    }

    /// Whether errors are shown at length.
    pub closed spec fn verbose(self) -> bool {
        self.verbose_errors
    }

    /// Whether errors are shown at length.
    pub fn verbose_errors(&self) -> (r: bool)
        ensures
            r == self.verbose(),
    {
        self.verbose_errors
    }

    /// Whether the gateway is reached over HTTP.
    pub fn is_http(&self) -> (r: bool)
        ensures
            r == self.mode() is HTTPGateway,
    {
        match &self.mode {
            ClientMode::HTTPGateway(_) => true,
            ClientMode::EmbeddedGateway { .. } => false,
        }
    }

    /// The time that a call of a gateway within the process may take.
    pub fn timeout(&self) -> (r: Option<Duration>)
        ensures
            r == (match self.mode() {
                ClientMode::HTTPGateway(_) => None,
                ClientMode::EmbeddedGateway { timeout } => timeout,
            }),
    {
        match &self.mode {
            ClientMode::HTTPGateway(_) => None,
            ClientMode::EmbeddedGateway { timeout } => timeout.clone(),
        }
    }

    /// The version that the gateway told of itself; none for a gateway
    /// within the process.
    pub fn get_gateway_version(&self) -> (r: Option<String>)
        ensures
            r == (match self.mode() {
                ClientMode::HTTPGateway(gateway) => gateway.gateway_version,
                ClientMode::EmbeddedGateway { .. } => None,
            }),
    {
        match &self.mode {
            ClientMode::HTTPGateway(gateway) => gateway.gateway_version.clone(),
            ClientMode::EmbeddedGateway { .. } => None,
        }
    }

    /// Records the version of the gateway. A gateway within the process has
    /// none to record.
    pub fn update_gateway_version(&mut self, version: String)
        ensures
            final(self).verbose() == old(self).verbose(),
            match old(self).mode() {
                ClientMode::HTTPGateway(gateway) => final(self).mode() == ClientMode::HTTPGateway(
                    HTTPGateway { base_url: gateway.base_url, gateway_version: Some(version) },
                ),
                ClientMode::EmbeddedGateway { .. } => final(self).mode() == old(self).mode(),
            },
    {
        match &mut self.mode {
            ClientMode::HTTPGateway(gateway) => {
                gateway.gateway_version = Some(version);
            },
            ClientMode::EmbeddedGateway { .. } => {},
        }
    }

    /// Records the version that an answer of the gateway tells, where it
    /// tells one: `header` is the value of the version header, and
    /// `version_override` a version that goes before it. Without either,
    /// the version stays as it is.
    pub fn update_gateway_version_from_headers(
        &mut self,
        header: Option<String>,
        version_override: Option<String>,
    )
        ensures
            final(self).verbose() == old(self).verbose(),
            match (told_version(header, version_override), old(self).mode()) {
                (Some(version), ClientMode::HTTPGateway(gateway)) => final(self).mode()
                    == ClientMode::HTTPGateway(
                    HTTPGateway { base_url: gateway.base_url, gateway_version: Some(version) },
                ),
                _ => final(self).mode() == old(self).mode(),
            },
    {
        let version = match version_override {
            Some(v) => Some(v),
            None => header,
        };
        if let Some(version) = version {
            self.update_gateway_version(version);
        }
    }

    /// What the client does to carry out an operation.
    ///
    /// Over HTTP, each operation has its method and its path below the
    /// gateway's address; the operations that exist only within the process
    /// give an `InvalidClientMode` error, and the health of the database
    /// has nothing to ask. Within the process, the gateway is called, for
    /// no longer than the client's timeout.
    pub fn dispatch(&self, operation: &Operation) -> (r: Result<Dispatch, TensorZeroError>)
        ensures
            is_dispatch(r, self.mode(), *operation),
    {
        match &self.mode {
            ClientMode::EmbeddedGateway { timeout } => {
                if let Operation::Status = operation {
                    Ok(Dispatch::Nothing)
                } else {
                    Ok(Dispatch::Embedded { timeout: timeout.clone() })
                }
            },
            ClientMode::HTTPGateway(gateway) => {
                if operation.is_embedded_only() {
                    return Err(
                        other(
                            ErrorDetails::InvalidClientMode {
                                mode: String::from_str("Http"),
                                message: String::from_str(
                                    "This function is only available in EmbeddedGateway mode",
                                ),
                            },
                        ),
                    );
                }
                if let Operation::ClickhouseHealth = operation {
                    return Ok(Dispatch::Nothing);
                }
                let path = operation.path_string();
                match address_join(&gateway.base_url, path.as_str()) {
                    None => Err(join_error(path.as_str())),
                    Some(url) => Ok(
                        Dispatch::Http {
                            method: operation.http_method(),
                            url,
                            query: operation.query_pairs(),
                            json_body: operation.http_method() == HttpMethod::Post,
                        },
                    ),
                }
            },
        }
    }

    /// Prepares an inference: for a gateway over HTTP, the input is
    /// adjusted to the version of the gateway, as
    /// `try_adjust_tool_call_arguments` says, and the request goes to the
    /// endpoint `inference`; for a gateway within the process, the input
    /// stays as it is. `stream` says whether the answer is to be streamed;
    /// it is not where nothing is said.
    pub fn prepare_inference(&self, input: &mut ClientInput, stream: Option<bool>) -> (r: Result<
        (Dispatch, bool),
        TensorZeroError,
    >)
        ensures
            match self.mode() {
                ClientMode::EmbeddedGateway { .. } => {
                    &&& *final(input) == *old(input)
                    &&& r matches Ok(pair)
                    &&& is_dispatch(Ok(pair.0), self.mode(), Operation::Inference)
                    &&& pair.1 == (stream == Some(true))
                },
                ClientMode::HTTPGateway(gateway) => match adjusts(opt_text(gateway.gateway_version)) {
                    Err(fault) => {
                        &&& r matches Err(e)
                        &&& e.is_internal(
                            version_fault_text(
                                fault,
                                gateway.gateway_version->Some_0@,
                                min_version(),
                            ),
                        )
                        &&& *final(input) == *old(input)
                    },
                    Ok(adjust) => {
                        &&& if adjust {
                            input_adjusted(*old(input), *final(input))
                        } else {
                            *final(input) == *old(input)
                        }
                        &&& match r {
                            Ok(pair) => is_dispatch(Ok(pair.0), self.mode(), Operation::Inference)
                                && pair.1 == (stream == Some(true)),
                            Err(e) => is_dispatch(Err(e), self.mode(), Operation::Inference),
                        }
                    },
                },
            },
    {
        if let ClientMode::HTTPGateway(gateway) = &self.mode {
            let version: Option<&str> = match &gateway.gateway_version {
                Some(v) => Some(v.as_str()),
                None => None,
            };
            match try_adjust_tool_call_arguments(version, input) {
                Ok(()) => {},
                Err(e) => {
                    return Err(e);
                },
            }
        }
        let streaming = match stream {
            Some(s) => s,
            None => false,
        };
        match self.dispatch(&Operation::Inference) {
            Ok(d) => Ok((d, streaming)),
            Err(e) => Err(e),
        }
    }

    /// Decides on what came of sending a request, and records the version
    /// that the answer tells. No answer is an error: `RequestTimeout` where
    /// the time ran out, else a `JsonRequest` error. An answer whose status
    /// stands for a failure is to be reported with its body; any other is
    /// to be decoded.
    pub fn parse_http_response(&mut self, transport: Transport, version_override: Option<String>) -> (r:
        Result<BodyUse, TensorZeroError>)
        ensures
            final(self).verbose() == old(self).verbose(),
            match transport {
                Transport::Failed { timed_out, message } => {
                    &&& final(self).mode() == old(self).mode()
                    &&& if timed_out {
                        r matches Err(TensorZeroError::RequestTimeout)
                    } else {
                        r matches Err(e) && is_request_error(e, transport_text(message@))
                    }
                },
                Transport::Answered { status, gateway_version } => {
                    &&& r == Ok::<BodyUse, TensorZeroError>(
                        if status_is_failure(status) {
                            BodyUse::Report { status }
                        } else {
                            BodyUse::Decode
                        },
                    )
                    &&& match (told_version(gateway_version, version_override), old(self).mode()) {
                        (Some(version), ClientMode::HTTPGateway(gateway)) => final(self).mode()
                            == ClientMode::HTTPGateway(
                            HTTPGateway { base_url: gateway.base_url, gateway_version: Some(version) },
                        ),
                        _ => final(self).mode() == old(self).mode(),
                    }
                },
            },
    {
        match transport {
            Transport::Failed { timed_out, message } => {
                if timed_out {
                    Err(TensorZeroError::RequestTimeout)
                } else {
                    let mut m = String::from_str("Error from server: ");
                    m.append(message.as_str());
                    Err(other(ErrorDetails::JsonRequest { message: m }))
                }
            },
            Transport::Answered { status, gateway_version } => {
                self.update_gateway_version_from_headers(gateway_version, version_override);
                if 400 <= status && status < 600 {
                    Ok(BodyUse::Report { status })
                } else {
                    Ok(BodyUse::Decode)
                }
            },
        }
    }
}

} // verus!
