//! The adapter to SGLang, a server that speaks OpenAI's wire form.

use vstd::prelude::*;
use serde_json::Value;
use std::time::Duration;
use url::Url;
use uuid::Uuid;
use crate::error::{Error, ErrorDetails};
use crate::inference::Real32;
use crate::model::{
    ApiKey, Credential, CredentialLocation, InferenceCredentials, ModelInferenceRequest,
    ModelInferenceRequestJsonMode,
};
use crate::providers::openai::{
    all_wire_messages, first_misplaced_from, get_chat_url, handle_openai_error, is_success,
    are_wire_tools, message_models, misplaced_text, prepare_openai_messages,
    prepare_openai_tools, status_is_success, system_messages, chat_url_text, OpenAIRequestMessage,
    OpenAIResponse, OpenAITool, OpenAIToolChoice, OpenAIUsage, StreamOptions,
};
use crate::streaming::{done_text, SseEvent, SseFault, SseFaultKind};
use crate::text::{decimal, decimal_string, has_suffix, ends_with_str, opt_text, str_eq, texts};
use crate::types::{
    copy_messages, same_messages, ContentBlockChunk, ContentBlockOutput, FinishReason, Latency,
    ProviderInferenceResponse, ProviderInferenceResponseArgs, ProviderInferenceResponseChunk, Text,
    TextChunk, ToolCall, ToolCallChunk, Usage,
};
use crate::web::{address_path, endpoint_text, url_path, url_text};

verus! {

/// The name of the provider, as errors show it.
pub open spec fn provider_name() -> Seq<char> {
    "SGLang"@
}

/// The type of the provider, as the configuration names it.
pub open spec fn provider_type() -> Seq<char> {
    "sglang"@
}

/// Where the key of the provider is looked for where the configuration does
/// not say: in the environment variable `SGLANG_API_KEY`.
pub fn default_api_key_location() -> (r: CredentialLocation)
    ensures
        r matches CredentialLocation::Env(name) && name@ == "SGLANG_API_KEY"@,
{
    CredentialLocation::Env(String::from_str("SGLANG_API_KEY"))
}

/// The credentials of the provider.
#[derive(Clone, PartialEq)]
pub enum SGLangCredentials {
    /// A key of the configuration.
    Static(ApiKey),
    /// The key that the request brings under this name.
    Dynamic(String),
    /// No key: the provider is called without one.
    Absent,
}

/// The provider: a model served at an address.
pub struct SGLangProvider {
    model_name: String,
    api_base: Url,
    credentials: SGLangCredentials,
}

/// Whether the path of a base address already ends in the endpoint that the
/// adapter adds to it, which is most likely a mistake of the configuration.
pub open spec fn has_endpoint_suffix(path: Seq<char>) -> bool {
    has_suffix(path, "/chat/completions"@) || has_suffix(path, "/chat/completions/"@)
}

/// Whether the path of a base address already ends in the endpoint that the
/// adapter adds to it.
pub fn check_api_base_suffix(api_base: &Url) -> (r: bool)
    ensures
        r == has_endpoint_suffix(url_path(url_text(*api_base))),
{
    let path = address_path(api_base);
    ends_with_str(path.as_str(), "/chat/completions") || ends_with_str(
        path.as_str(),
        "/chat/completions/",
    )
}

impl SGLangProvider {
    /// The name of the model.
    pub closed spec fn model(self) -> Seq<char> {
        self.model_name@
    }

    /// The base address.
    pub closed spec fn base(self) -> Url {
        self.api_base
    }

    /// The credentials.
    pub closed spec fn creds(self) -> SGLangCredentials {
        self.credentials
    }

    /// The provider of the model `model_name` at `api_base`.
    pub fn new(model_name: String, api_base: Url, credentials: SGLangCredentials) -> (p: SGLangProvider)
        ensures
            p.model() == model_name@,
            p.base() == api_base,
            p.creds() == credentials,
    {
        SGLangProvider { model_name, api_base, credentials }
    }

    /// The name of the model.
    pub fn model_name(&self) -> (r: &str)
        ensures
            r@ == self.model(),
    {
        self.model_name.as_str()
    }

    /// The base address.
    pub fn api_base(&self) -> (r: &Url)
        ensures
            *r == self.base(),
    {
        &self.api_base
    }

    /// The credentials.
    pub fn credentials(&self) -> (r: &SGLangCredentials)
        ensures
            *r == self.creds(),
    {
        &self.credentials
    }
}

/// The text of the error for credentials that the provider cannot use.
pub open spec fn invalid_location_text() -> Seq<char> {
    "Invalid api_key_location for SGLang provider"@
}

/// Says that `r` is the key that the credentials `credentials` give for a
/// request that brings the keys `keys`.
pub open spec fn is_key_of(
    r: Result<Option<&ApiKey>, Error>,
    credentials: SGLangCredentials,
    keys: InferenceCredentials,
) -> bool {
    match credentials {
        SGLangCredentials::Static(key) => r matches Ok(Some(k)) && *k == key,
        SGLangCredentials::Dynamic(name) => match keys.lookup(name@) {
            Some(key) => r matches Ok(Some(k)) && *k == key,
            None => r matches Err(e) && e.details matches ErrorDetails::ApiKeyMissing {
                provider_name: p,
            } && p@ == provider_name(),
        },
        SGLangCredentials::Absent => r matches Ok(None),
    }
}

impl SGLangCredentials {
    /// The credentials of the provider from those that the configuration
    /// resolved: a key or the name of one stay; none, and a missing one,
    /// stand for no key; any other kind is a `Config` error.
    pub fn try_from_credential(credentials: Credential) -> (r: Result<SGLangCredentials, Error>)
        ensures
            match credentials {
                Credential::Static(key) => r matches Ok(c) && c == SGLangCredentials::Static(key),
                Credential::Dynamic(name) => r matches Ok(c) && c == SGLangCredentials::Dynamic(name),
                Credential::Absent => r matches Ok(c) && c == SGLangCredentials::Absent,
                Credential::Missing => r matches Ok(c) && c == SGLangCredentials::Absent,
                _ => r matches Err(e) && e.is_config(invalid_location_text()),
            },
    {
        match credentials {
            Credential::Static(key) => Ok(SGLangCredentials::Static(key)),
            Credential::Dynamic(key_name) => Ok(SGLangCredentials::Dynamic(key_name)),
            Credential::Absent => Ok(SGLangCredentials::Absent),
            Credential::Missing => Ok(SGLangCredentials::Absent),
            _ => Err(
                Error::new(
                    ErrorDetails::Config {
                        message: String::from_str("Invalid api_key_location for SGLang provider"),
                    },
                ),
            ),
        }
    }

    /// The key to call the provider with: the key of the configuration; the
    /// key that the request brings under the configured name, and an
    /// `ApiKeyMissing` error where it brings none; no key where none is
    /// configured.
    pub fn get_api_key<'a>(&'a self, dynamic_api_keys: &'a InferenceCredentials) -> (r: Result<
        Option<&'a ApiKey>,
        Error,
    >)
        ensures
            is_key_of(r, *self, *dynamic_api_keys),
    {
        match self {
            SGLangCredentials::Static(api_key) => Ok(Some(api_key)),
            SGLangCredentials::Dynamic(key_name) => match dynamic_api_keys.get(key_name.as_str()) {
                Some(key) => Ok(Some(key)),
                None => Err(
                    Error::new(
                        ErrorDetails::ApiKeyMissing { provider_name: String::from_str("SGLang") },
                    ),
                ),
            },
            SGLangCredentials::Absent => Ok(None),
        }
    }
}

/// Why the model stopped, as the provider says it.
#[derive(Debug, Clone, Copy, PartialEq, Eq, Structural)]
pub enum SGLangFinishReason {
    Stop,
    Length,
    ToolCalls,
    ContentFilter,
    /// Any reason that the adapter does not know.
    Unknown,
}

impl SGLangFinishReason {
    /// The reason in the gateway's terms.
    pub open spec fn reason(self) -> FinishReason {
        match self {
            SGLangFinishReason::Stop => FinishReason::Stop,
            SGLangFinishReason::Length => FinishReason::Length,
            SGLangFinishReason::ToolCalls => FinishReason::ToolCall,
            SGLangFinishReason::ContentFilter => FinishReason::ContentFilter,
            SGLangFinishReason::Unknown => FinishReason::Unknown,
        }
    }
}

impl From<SGLangFinishReason> for FinishReason {
    fn from(reason: SGLangFinishReason) -> (r: FinishReason) {
        match reason {
            SGLangFinishReason::Stop => FinishReason::Stop,
            SGLangFinishReason::Length => FinishReason::Length,
            SGLangFinishReason::ToolCalls => FinishReason::ToolCall,
            SGLangFinishReason::ContentFilter => FinishReason::ContentFilter,
            SGLangFinishReason::Unknown => FinishReason::Unknown,
        }
    }
}

impl vstd::std_specs::convert::FromSpecImpl<SGLangFinishReason> for FinishReason {
    open spec fn obeys_from_spec() -> bool {
        true
    }

    open spec fn from_spec(reason: SGLangFinishReason) -> FinishReason {
        reason.reason()
    }
}

/// The function of a piece of a tool call.
#[derive(Clone, Debug, PartialEq)]
pub struct SGLangFunctionCallChunk {
    pub name: Option<String>,
    pub arguments: Option<String>,
}

/// A piece of a tool call. The provider tells the id of a call once and
/// leaves it out of the pieces that follow.
#[derive(Clone, Debug, PartialEq)]
pub struct SGLangToolCallChunk {
    pub index: Option<u8>,
    pub id: Option<String>,
    pub function: SGLangFunctionCallChunk,
}

/// What a chunk adds to the answer.
#[derive(Clone, Debug, PartialEq)]
pub struct SGLangDelta {
    pub content: Option<String>,
    pub tool_calls: Option<Vec<SGLangToolCallChunk>>,
}

/// One choice of a chunk.
#[derive(Clone, Debug, PartialEq)]
pub struct SGLangChatChunkChoice {
    pub delta: SGLangDelta,
    pub finish_reason: Option<SGLangFinishReason>,
}

/// A chunk of a streamed answer, as the provider sends it.
#[derive(Clone, Debug, PartialEq)]
pub struct SGLangChatChunk {
    pub choices: Vec<SGLangChatChunkChoice>,
    pub usage: Option<OpenAIUsage>,
}

/// The ids of the tool calls of a stream after the pieces `calls`: those
/// known before, and the id of each piece that tells one, in their order.
pub open spec fn ids_after(ids: Seq<Seq<char>>, calls: Seq<SGLangToolCallChunk>) -> Seq<Seq<char>>
    decreases calls.len(),
{
    if calls.len() == 0 {
        ids
    } else {
        match calls.last().id {
            Some(id) => ids_after(ids, calls.drop_last()).push(id@),
            None => ids_after(ids, calls.drop_last()),
        }
    }
}

/// The id of the piece `call` of a tool call, where `ids` are the ids known
/// before it: its own where it tells one, else the one at the place of its
/// index, which counts as zero where it is left out; none where the index
/// lies beyond the ids known.
pub open spec fn stitched_id(ids: Seq<Seq<char>>, call: SGLangToolCallChunk) -> Option<Seq<char>> {
    match call.id {
        Some(id) => Some(id@),
        None => {
            let index: int = match call.index {
                Some(i) => i as int,
                None => 0,
            };
            if index < ids.len() {
                Some(ids[index])
            } else {
                None
            }
        },
    }
}

/// The id of the piece at place `k` of `calls`, in a stream whose ids were
/// `ids` before the chunk.
pub open spec fn id_at(ids: Seq<Seq<char>>, calls: Seq<SGLangToolCallChunk>, k: int) -> Option<Seq<char>> {
    stitched_id(ids_after(ids, calls.take(k)), calls[k])
}

/// The place of the first piece from `k` on that has no id; the number of
/// pieces where each has one.
pub open spec fn first_unstitched_from(
    ids: Seq<Seq<char>>,
    calls: Seq<SGLangToolCallChunk>,
    k: int,
) -> int
    decreases calls.len() - k,
{
    if k < 0 || k >= calls.len() {
        calls.len() as int
    } else if id_at(ids, calls, k) is None {
        k
    } else {
        first_unstitched_from(ids, calls, k + 1)
    }
}

/// Says that `block` is the block of a streamed answer that the piece
/// `call` with the id `id` becomes.
pub open spec fn is_tool_call_block(block: ContentBlockChunk, id: Seq<char>, call: SGLangToolCallChunk) -> bool {
    &&& block matches ContentBlockChunk::ToolCall(c)
    &&& c.id@ == id
    &&& c.raw_name == call.function.name
    &&& c.raw_arguments@ == (match call.function.arguments {
        Some(a) => a@,
        None => Seq::<char>::empty(),
    })
}

/// Says that `block` is the block of a streamed answer that the text `text` becomes.
pub open spec fn is_text_block(block: ContentBlockChunk, text: Seq<char>) -> bool {
    block matches ContentBlockChunk::Text(t) && t.id@ == "0"@ && t.text@ == text
}

/// The pieces of tool calls of a choice.
pub open spec fn calls_of(choice: SGLangChatChunkChoice) -> Seq<SGLangToolCallChunk> {
    match choice.delta.tool_calls {
        Some(calls) => calls@,
        None => Seq::<SGLangToolCallChunk>::empty(),
    }
}

/// The number of text blocks that a choice gives: one where it has content.
pub open spec fn text_count(choice: SGLangChatChunkChoice) -> int {
    if choice.delta.content is Some {
        1
    } else {
        0
    }
}

/// Says that the first `n` of `blocks` are the blocks that the first `n`
/// pieces of `calls` become, in a stream whose ids were `ids` before.
pub open spec fn are_call_blocks(
    blocks: Seq<ContentBlockChunk>,
    ids: Seq<Seq<char>>,
    calls: Seq<SGLangToolCallChunk>,
    n: int,
) -> bool {
    forall|k: int|
        0 <= k < n ==> {
            &&& (#[trigger] id_at(ids, calls, k)) is Some
            &&& is_tool_call_block(blocks[k], id_at(ids, calls, k)->Some_0, calls[k])
        }
}

/// Says that `content` holds the blocks of the choice `choice`, in a stream
/// whose ids were `ids` before: the text first, then one block for each
/// piece of a tool call, with its id.
pub open spec fn is_content_of(
    content: Seq<ContentBlockChunk>,
    choice: SGLangChatChunkChoice,
    ids: Seq<Seq<char>>,
) -> bool {
    let calls = calls_of(choice);
    let offset = text_count(choice);
    &&& content.len() == offset + calls.len()
    &&& choice.delta.content matches Some(text) ==> is_text_block(content[0], text@)
    &&& are_call_blocks(content.skip(offset), ids, calls, calls.len() as int)
}

/// The text of the error for a chunk with more than one choice.
pub open spec fn chunk_choices_text() -> Seq<char> {
    "Response has invalid number of choices: {}. Expected 1."@
}

/// The text of the error for a piece of a tool call whose id is not known.
pub open spec fn unknown_id_text() -> Seq<char> {
    "Tool call index out of bounds (meaning we haven't seen this many ids in the stream)"@
}

/// Says that `e` is an error of the provider's server with these parts.
pub open spec fn is_server_error(
    e: Error,
    message: Seq<char>,
    raw_request: Option<Seq<char>>,
    raw_response: Option<Seq<char>>,
) -> bool {
    &&& e.details matches ErrorDetails::InferenceServer {
        message: m,
        provider_type: p,
        raw_request: req,
        raw_response: resp,
    }
    &&& m@ == message
    &&& p@ == provider_type()
    &&& opt_text(req) == raw_request
    &&& opt_text(resp) == raw_response
}

fn server_error(message: String, raw_request: Option<String>, raw_response: Option<String>) -> (e: Error)
    ensures
        is_server_error(e, message@, opt_text(raw_request), opt_text(raw_response)),
{
    Error::new(
        ErrorDetails::InferenceServer {
            message,
            provider_type: String::from_str("sglang"),
            raw_request,
            raw_response,
        },
    )
}

proof fn lemma_ids_step(ids: Seq<Seq<char>>, calls: Seq<SGLangToolCallChunk>, k: int)
    requires
        0 <= k < calls.len(),
    ensures
        ids_after(ids, calls.take(k + 1)) == (match calls[k].id {
            Some(id) => ids_after(ids, calls.take(k)).push(id@),
            None => ids_after(ids, calls.take(k)),
        }),
{
    assert(calls.take(k + 1).drop_last() =~= calls.take(k));
    assert(calls.take(k + 1).last() == calls[k]);
}

/// Says that `r` is what the chunk `chunk` of the provider becomes, and
/// `after` are the ids of the tool calls of the stream after it, where
/// `before` were those before it.
pub open spec fn is_chunk_of(
    r: Result<ProviderInferenceResponseChunk, Error>,
    before: Seq<String>,
    after: Seq<String>,
    raw_message: String,
    chunk: SGLangChatChunk,
    latency: Duration,
    created: u64,
) -> bool {
    let ids = texts(before);
    if chunk.choices@.len() > 1 {
        &&& r matches Err(e)
        &&& is_server_error(e, chunk_choices_text(), None, Some(raw_message@))
        &&& after == before
    } else if chunk.choices@.len() == 0 {
        &&& r matches Ok(c)
        &&& c.content@.len() == 0
        &&& c.finish_reason is None
        &&& chunk_frame(c, chunk, raw_message, latency, created)
        &&& after == before
    } else {
        let choice = chunk.choices@[0];
        let calls = calls_of(choice);
        let bad = first_unstitched_from(ids, calls, 0);
        if bad < calls.len() {
            &&& r matches Err(e)
            &&& is_server_error(e, unknown_id_text(), None, None)
            &&& texts(after) == ids_after(ids, calls.take(bad))
        } else {
            &&& r matches Ok(c)
            &&& is_content_of(c.content@, choice, ids)
            &&& c.finish_reason == (match choice.finish_reason {
                Some(reason) => Some(reason.reason()),
                None => None,
            })
            &&& chunk_frame(c, chunk, raw_message, latency, created)
            &&& texts(after) == ids_after(ids, calls)
        }
    }
}

/// Translates a chunk of the provider into a chunk of the gateway.
///
/// A chunk has one choice or none; more is an error. The text of the choice
/// becomes a text block with the id `0`, each piece of a tool call a block
/// of its own, in their order. A piece that tells its id adds it to the ids
/// of the stream; a piece that tells none takes the id at the place of its
/// index, and is an error where the stream has not shown that many ids. The
/// finish reason and the usage of the chunk are handed on.
pub fn sglang_to_tensorzero_chunk(
    raw_message: String,
    chunk: SGLangChatChunk,
    latency: Duration,
    tool_call_ids: &mut Vec<String>,
    created: u64,
) -> (r: Result<ProviderInferenceResponseChunk, Error>)
    ensures
        is_chunk_of(
            r,
            old(tool_call_ids)@,
            final(tool_call_ids)@,
            raw_message,
            chunk,
            latency,
            created,
        ),
{
    let SGLangChatChunk { choices, usage } = chunk;
    let mut choices = choices;
    if choices.len() > 1 {
        return Err(
            server_error(
                String::from_str("Response has invalid number of choices: {}. Expected 1."),
                None,
                Some(raw_message),
            ),
        );
    }
    let usage: Option<Usage> = match usage {
        Some(u) => Some(Usage { input_tokens: u.prompt_tokens, output_tokens: u.completion_tokens }),
        None => None,
    };
    let mut finish_reason: Option<FinishReason> = None;
    let mut content: Vec<ContentBlockChunk> = Vec::new();
    let ghost ids = texts(tool_call_ids@);
    if let Some(choice) = choices.pop() {
        let SGLangChatChunkChoice { delta, finish_reason: reason } = choice;
        if let Some(reason) = reason {
            finish_reason = Some(FinishReason::from(reason));
        }
        let SGLangDelta { content: text, tool_calls } = delta;
        if let Some(text) = text {
            content.push(ContentBlockChunk::Text(TextChunk { text, id: String::from_str("0") }));
        }
        let ghost head = content@;
        if let Some(tool_calls) = tool_calls {
            let ghost calls = tool_calls@;
            let mut blocks: Vec<ContentBlockChunk> = Vec::new();
            let mut k: usize = 0;
            proof {
                assert(calls.take(0) =~= Seq::<SGLangToolCallChunk>::empty());
            }
            while k < tool_calls.len()
                invariant
                    k <= calls.len(),
                    calls == tool_calls@,
                    chunk.choices@.len() == 1,
                    calls == calls_of(chunk.choices@[0]),
                    ids == texts(old(tool_call_ids)@),
                    texts(tool_call_ids@) == ids_after(ids, calls.take(k as int)),
                    first_unstitched_from(ids, calls, 0) == first_unstitched_from(ids, calls, k as int),
                    blocks@.len() == k,
                    are_call_blocks(blocks@, ids, calls, k as int),
                decreases calls.len() - k,
            {
                proof {
                    lemma_ids_step(ids, calls, k as int);
                }
                let tool_call = &tool_calls[k];
                let id = match &tool_call.id {
                    Some(id) => {
                        let ghost before = texts(tool_call_ids@);
                        tool_call_ids.push(id.clone());
                        proof {
                            assert(texts(tool_call_ids@) =~= before.push(id@));
                        }
                        id.clone()
                    },
                    None => {
                        let place: usize = match tool_call.index {
                            Some(i) => i as usize,
                            None => 0,
                        };
                        if place < tool_call_ids.len() {
                            proof {
                                assert(texts(tool_call_ids@)[place as int] == tool_call_ids@[place as int]@);
                            }
                            tool_call_ids[place].clone()
                        } else {
                            return Err(
                                server_error(
                                    String::from_str(
                                        "Tool call index out of bounds (meaning we haven't seen this many ids in the stream)",
                                    ),
                                    None,
                                    None,
                                ),
                            );
                        }
                    },
                };
                assert(id_at(ids, calls, k as int) == Some(id@));
                let raw_arguments = match &tool_call.function.arguments {
                    Some(a) => a.clone(),
                    None => String::new(),
                };
                let block = ContentBlockChunk::ToolCall(
                    ToolCallChunk { id, raw_name: tool_call.function.name.clone(), raw_arguments },
                );
                let ghost earlier = blocks@;
                blocks.push(block);
                proof {
                    assert forall|j: int| 0 <= j < k + 1 implies {
                        &&& (#[trigger] id_at(ids, calls, j)) is Some
                        &&& is_tool_call_block(blocks@[j], id_at(ids, calls, j)->Some_0, calls[j])
                    } by {
                        if j < k {
                            assert(blocks@[j] == earlier[j]);
                        }
                    }
                }
                k = k + 1;
            }
            let ghost tail = blocks@;
            content.append(&mut blocks);
            proof {
                assert(calls.take(calls.len() as int) =~= calls);
                assert(content@.skip(head.len() as int) =~= tail);
            }
        } else {
            proof {
                assert(content@.skip(head.len() as int) =~= Seq::<ContentBlockChunk>::empty());
            }
        }
    }
    Ok(ProviderInferenceResponseChunk::new(content, usage, raw_message, latency, finish_reason, created))
}

/// Says that the frame of the chunk `c` is that of the chunk `chunk` of the
/// provider: its text as it came, its usage, the latency and the time.
pub open spec fn chunk_frame(
    c: ProviderInferenceResponseChunk,
    chunk: SGLangChatChunk,
    raw_message: String,
    latency: Duration,
    created: u64,
) -> bool {
    &&& c.raw_response == raw_message
    &&& c.latency == latency
    &&& c.created == created
    &&& c.usage == (match chunk.usage {
        Some(u) => Some(Usage { input_tokens: u.prompt_tokens, output_tokens: u.completion_tokens }),
        None => None,
    })
}

/// A JSON schema that the model's answer must match, under the name by
/// which the provider is told of it.
#[derive(Clone, Debug, PartialEq)]
pub struct JsonSchemaFormat {
    pub name: String,
    pub strict: bool,
    pub schema: Value,
}

/// The form in which the model is to answer.
#[derive(Clone, Debug, PartialEq)]
pub enum SGLangResponseFormat {
    Text,
    JsonSchema { json_schema: JsonSchemaFormat },
}

impl Default for SGLangResponseFormat {
    fn default() -> (r: SGLangResponseFormat)
        ensures
            r == SGLangResponseFormat::Text,
    {
        SGLangResponseFormat::Text
    }
}

/// The text of the error for a JSON mode without an output schema.
pub open spec fn schema_required_text() -> Seq<char> {
    "The SGL models requires a schema to be provided in json mode"@
}

/// Says that `format` asks for answers that match `schema`, strictly, under
/// the name `response`.
pub open spec fn is_schema_format(format: SGLangResponseFormat, schema: Value) -> bool {
    &&& format matches SGLangResponseFormat::JsonSchema { json_schema }
    &&& json_schema.name@ == "response"@
    &&& json_schema.strict
    &&& json_schema.schema == schema
}

/// Says that `r` is the response format for the JSON mode `json_mode` and
/// the output schema `output_schema`: none where the mode is off; else the
/// schema, and an `InvalidRequest` error where there is none.
pub open spec fn is_response_format(
    r: Result<Option<SGLangResponseFormat>, Error>,
    json_mode: ModelInferenceRequestJsonMode,
    output_schema: Option<Value>,
) -> bool {
    match json_mode {
        ModelInferenceRequestJsonMode::Off => r matches Ok(None),
        _ => match output_schema {
            Some(schema) => r matches Ok(Some(format)) && is_schema_format(format, schema),
            None => r matches Err(e) && e.is_invalid_request(schema_required_text()),
        },
    }
}

impl SGLangResponseFormat {
    /// The response format for a JSON mode and an output schema. The
    /// provider has no JSON mode of its own, so both `on` and `strict` ask
    /// for answers that match the schema.
    pub fn new(json_mode: &ModelInferenceRequestJsonMode, output_schema: Option<&Value>) -> (r: Result<
        Option<SGLangResponseFormat>,
        Error,
    >)
        ensures
            is_response_format(
                r,
                *json_mode,
                match output_schema {
                    Some(s) => Some(*s),
                    None => None,
                },
            ),
    {
        match json_mode {
            ModelInferenceRequestJsonMode::Off => Ok(None),
            ModelInferenceRequestJsonMode::On | ModelInferenceRequestJsonMode::Strict => {
                if let Some(schema) = output_schema {
                    let json_schema = JsonSchemaFormat {
                        name: String::from_str("response"),
                        strict: true,
                        schema: schema.clone(),
                    };
                    return Ok(Some(SGLangResponseFormat::JsonSchema { json_schema }));
                }
                Err(
                    Error::new(
                        ErrorDetails::InvalidRequest {
                            message: String::from_str(
                                "The SGL models requires a schema to be provided in json mode",
                            ),
                        },
                    ),
                )
            },
        }
    }
}

/// The request as it goes to the provider.
#[derive(Debug, Clone, PartialEq)]
pub struct SGLangRequest<'a> {
    pub messages: Vec<OpenAIRequestMessage>,
    pub model: &'a str,
    pub temperature: Option<Real32>,
    pub max_tokens: Option<u32>,
    pub seed: Option<u32>,
    pub top_p: Option<Real32>,
    pub presence_penalty: Option<Real32>,
    pub frequency_penalty: Option<Real32>,
    pub stream: bool,
    /// Set only for a streamed answer, and then to ask for usage.
    pub stream_options: Option<StreamOptions>,
    pub response_format: Option<SGLangResponseFormat>,
    pub tools: Option<Vec<OpenAITool>>,
    pub tool_choice: Option<OpenAIToolChoice>,
    pub parallel_tool_calls: Option<bool>,
    pub stop: Option<Vec<String>>,
}

/// Says that `out` is the request `request` in the provider's terms, for
/// the model `model`.
pub open spec fn is_wire_request(out: SGLangRequest, model: Seq<char>, request: ModelInferenceRequest) -> bool {
    &&& out.model@ == model
    &&& message_models(out.messages@) == system_messages(opt_text(request.system)) + all_wire_messages(
        request.messages@,
    )
    &&& out.temperature == request.temperature
    &&& out.max_tokens == request.max_tokens
    &&& out.seed == request.seed
    &&& out.top_p == request.top_p
    &&& out.presence_penalty == request.presence_penalty
    &&& out.frequency_penalty == request.frequency_penalty
    &&& out.stream == request.stream
    &&& out.stream_options == (if request.stream {
        Some(StreamOptions { include_usage: true })
    } else {
        None
    })
    &&& is_response_format(Ok(out.response_format), request.json_mode, request.output_schema)
    &&& are_wire_tools(out.tools, out.tool_choice, out.parallel_tool_calls, request.tool_config)
    &&& same_stops(out.stop, request.stop_sequences)
}

/// Says that two lists of stop sequences, where there are any, hold the same.
pub open spec fn same_stops(a: Option<Vec<String>>, b: Option<Vec<String>>) -> bool {
    match a {
        Some(a) => b matches Some(b) && a@ == b@,
        None => b is None,
    }
}

/// Why a request cannot be put in the provider's terms, if it cannot: the
/// JSON mode asks for a schema and there is none, or a message holds a
/// block that its role cannot send. The first is looked at first.
pub open spec fn request_fault(request: ModelInferenceRequest) -> Option<Seq<char>> {
    if request.json_mode != ModelInferenceRequestJsonMode::Off && request.output_schema is None {
        Some(schema_required_text())
    } else if first_misplaced_from(request.messages@, 0) < request.messages@.len() {
        Some(misplaced_text(request.messages@[first_misplaced_from(request.messages@, 0)].role))
    } else {
        None
    }
}

/// Says that `e` is the error for the fault `fault` of a request.
pub open spec fn is_request_error(e: Error, request: ModelInferenceRequest, fault: Seq<char>) -> bool {
    if request.json_mode != ModelInferenceRequestJsonMode::Off && request.output_schema is None {
        e.is_invalid_request(fault)
    } else {
        e.is_invalid_message(fault)
    }
}

impl<'a> SGLangRequest<'a> {
    /// The request `request` in the provider's terms, for the model `model`.
    /// The parameters of sampling are handed on as they are; usage is asked
    /// for where the answer is streamed.
    pub fn new(model: &'a str, request: &ModelInferenceRequest) -> (r: Result<SGLangRequest<'a>, Error>)
        ensures
            match request_fault(*request) {
                Some(fault) => r matches Err(e) && is_request_error(e, *request, fault),
                None => r matches Ok(out) && is_wire_request(out, model@, *request),
            },
    {
        let response_format = match SGLangResponseFormat::new(
            &request.json_mode,
            request.output_schema.as_ref(),
        ) {
            Ok(f) => f,
            Err(e) => {
                return Err(e);
            },
        };
        let stream_options = if request.stream {
            Some(StreamOptions { include_usage: true })
        } else {
            None
        };
        let system: Option<&str> = match &request.system {
            Some(s) => Some(s.as_str()),
            None => None,
        };
        let messages = match prepare_openai_messages(system, &request.messages) {
            Ok(m) => m,
            Err(e) => {
                return Err(e);
            },
        };
        let (tools, tool_choice, parallel_tool_calls) = prepare_openai_tools(request);
        proof {
            assert(opt_text(request.system) == (match system {
                Some(s) => Some(s@),
                None => None,
            }));
        }
        Ok(
            SGLangRequest {
                messages,
                model,
                temperature: request.temperature,
                max_tokens: request.max_tokens,
                seed: request.seed,
                top_p: request.top_p,
                presence_penalty: request.presence_penalty,
                frequency_penalty: request.frequency_penalty,
                stream: request.stream,
                stream_options,
                response_format,
                tools,
                tool_choice,
                parallel_tool_calls,
                stop: request.stop_sequences.clone(),
            },
        )
    }
}

/// An answer of the provider with what the adapter knows of the call.
pub struct SGLangResponseWithMetadata<'a> {
    pub response: OpenAIResponse,
    pub latency: Latency,
    pub raw_response: String,
    pub raw_request: String,
    pub generic_request: &'a ModelInferenceRequest,
}

/// The text of the error for an answer that has not exactly one choice.
pub open spec fn response_choices_text(count: nat) -> Seq<char> {
    "Response has invalid number of choices: "@ + decimal(count) + ". Expected 1."@
}

/// The number of text blocks that a choice of an answer gives: one where
/// it has content.
pub open spec fn text_blocks(choice: crate::providers::openai::OpenAIResponseChoice) -> int {
    if choice.message.content is Some {
        1
    } else {
        0
    }
}

/// Says that `output` holds the blocks of the one choice of an answer: its
/// text first, where it has any, then its tool calls in their order.
pub open spec fn is_output_of(output: Seq<ContentBlockOutput>, choice: crate::providers::openai::OpenAIResponseChoice) -> bool {
    let offset = text_blocks(choice);
    let calls = match choice.message.tool_calls {
        Some(calls) => calls@,
        None => Seq::<crate::providers::openai::OpenAIResponseToolCall>::empty(),
    };
    &&& output.len() == offset + calls.len()
    &&& choice.message.content matches Some(text) ==> output[0] == ContentBlockOutput::Text(
        Text { text },
    )
    &&& forall|k: int|
        0 <= k < calls.len() ==> (#[trigger] output.skip(offset)[k]) == ContentBlockOutput::ToolCall(
            ToolCall {
                id: calls[k].id,
                name: calls[k].function.name,
                arguments: calls[k].function.arguments,
            },
        )
}

/// Says that `r` is what the answer `value` of the provider becomes, with
/// the identifier `id`, made at the time `created`.
pub open spec fn is_response_of(
    r: Result<ProviderInferenceResponse, Error>,
    value: SGLangResponseWithMetadata,
    id: Uuid,
    created: u64,
) -> bool {
    if value.response.choices@.len() != 1 {
        r matches Err(e) && is_server_error(
            e,
            response_choices_text(value.response.choices@.len()),
            Some(value.raw_request@),
            Some(value.raw_response@),
        )
    } else {
        &&& r matches Ok(out)
        &&& out.id == id
        &&& out.created == created
        &&& is_output_of(out.output@, value.response.choices@[0])
        &&& out.system == value.generic_request.system
        &&& same_messages(value.generic_request.messages@, out.input_messages@)
        &&& out.raw_request == value.raw_request
        &&& out.raw_response == value.raw_response
        &&& out.usage == (Usage {
            input_tokens: value.response.usage.prompt_tokens,
            output_tokens: value.response.usage.completion_tokens,
        })
        &&& out.latency == value.latency
        &&& out.finish_reason == Some(value.response.choices@[0].finish_reason.reason())
    }
}

/// Translates an answer of the provider into an answer of the gateway, with
/// the identifier `id`, made at the time `created`.
///
/// An answer has exactly one choice; any other number is an
/// `InferenceServer` error that carries the request and the answer as they
/// went over the wire. The text of the choice comes first in the output,
/// then its tool calls, one block each. The finish reason and the usage are
/// put in the gateway's terms.
pub fn sglang_response(value: SGLangResponseWithMetadata, id: Uuid, created: u64) -> (r: Result<
    ProviderInferenceResponse,
    Error,
>)
    ensures
        is_response_of(r, value, id, created),
{
    let SGLangResponseWithMetadata { response, latency, raw_response, raw_request, generic_request } =
        value;
    let crate::providers::openai::OpenAIResponse { choices, usage } = response;
    let mut choices = choices;
    if choices.len() != 1 {
        let mut message = String::from_str("Response has invalid number of choices: ");
        let count = decimal_string(choices.len() as u64);
        message.append(count.as_str());
        message.append(". Expected 1.");
        return Err(server_error(message, Some(raw_request), Some(raw_response)));
    }
    let usage = Usage { input_tokens: usage.prompt_tokens, output_tokens: usage.completion_tokens };
    let choice = choices.pop().unwrap();
    let crate::providers::openai::OpenAIResponseChoice { message, finish_reason, index: _ } = choice;
    let crate::providers::openai::OpenAIResponseMessage { content: text, tool_calls } = message;
    let mut content: Vec<ContentBlockOutput> = Vec::new();
    if let Some(text) = text {
        content.push(ContentBlockOutput::Text(Text { text }));
    }
    let ghost head = content@;
    if let Some(tool_calls) = tool_calls {
        let mut blocks: Vec<ContentBlockOutput> = Vec::new();
        let mut k: usize = 0;
        while k < tool_calls.len()
            invariant
                k <= tool_calls@.len(),
                blocks@.len() == k,
                forall|j: int|
                    0 <= j < k ==> (#[trigger] blocks@[j]) == ContentBlockOutput::ToolCall(
                        ToolCall {
                            id: tool_calls@[j].id,
                            name: tool_calls@[j].function.name,
                            arguments: tool_calls@[j].function.arguments,
                        },
                    ),
            decreases tool_calls@.len() - k,
        {
            let call = &tool_calls[k];
            blocks.push(
                ContentBlockOutput::ToolCall(
                    ToolCall {
                        id: call.id.clone(),
                        name: call.function.name.clone(),
                        arguments: call.function.arguments.clone(),
                    },
                ),
            );
            k = k + 1;
        }
        let ghost tail = blocks@;
        content.append(&mut blocks);
        proof {
            assert(content@.skip(head.len() as int) =~= tail);
        }
    } else {
        proof {
            assert(content@.skip(head.len() as int) =~= Seq::<ContentBlockOutput>::empty());
        }
    }
    let system = generic_request.system.clone();
    let input_messages = copy_messages(&generic_request.messages);
    Ok(
        ProviderInferenceResponse::new(
            ProviderInferenceResponseArgs {
                output: content,
                system,
                input_messages,
                raw_request,
                raw_response,
                usage,
                latency,
                finish_reason: Some(FinishReason::from(finish_reason)),
            },
            id,
            created,
        ),
    )
}

/// What the adapter does about an event of the provider's stream.
#[derive(Debug, PartialEq)]
pub enum StreamAction {
    /// Nothing: the next event is awaited.
    Skip,
    /// The stream is over.
    Stop,
    /// The frame is to be decoded as a chunk.
    Decode { data: String },
    /// The error goes to the caller, and the next event is awaited.
    Fail(Error),
}

/// Decides on an event of the provider's stream. The opening of the stream
/// is passed over; the sentinel `[DONE]` ends the stream; any other frame
/// is a chunk to decode. A fault goes to the caller as an error of the
/// provider's server, with the body of the answer where the fault was an
/// HTTP status.
pub fn stream_sglang_event(event: Result<SseEvent, SseFault>) -> (r: StreamAction)
    ensures
        match event {
            Ok(SseEvent::Open) => r == StreamAction::Skip,
            Ok(SseEvent::Message { data }) => if data@ == done_text() {
                r == StreamAction::Stop
            } else {
                r == (StreamAction::Decode { data })
            },
            Err(fault) => r matches StreamAction::Fail(e) && is_server_error(
                e,
                fault.message@,
                None,
                match fault.kind {
                    SseFaultKind::InvalidStatusCode { body, .. } => opt_text(body),
                    _ => None,
                },
            ),
        },
{
    match event {
        Ok(SseEvent::Open) => StreamAction::Skip,
        Ok(SseEvent::Message { data }) => {
            if str_eq(data.as_str(), "[DONE]") {
                StreamAction::Stop
            } else {
                StreamAction::Decode { data }
            }
        },
        Err(fault) => {
            let SseFault { kind, message } = fault;
            let raw_response = match kind {
                SseFaultKind::InvalidStatusCode { body, .. } => body,
                _ => None,
            };
            StreamAction::Fail(server_error(message, None, raw_response))
        },
    }
}

/// The text of the error for a frame that is no chunk.
pub open spec fn chunk_decode_text(fault: Seq<char>) -> Seq<char> {
    "Error parsing chunk. Error: "@ + fault
}

/// Turns a decoded frame of the provider's stream into a chunk of the
/// gateway. `decoded` is the chunk read from the frame `data`, or the text
/// of what went wrong in reading it, which gives an error of the provider's
/// server that carries the frame.
pub fn stream_sglang_chunk(
    data: String,
    decoded: Result<SGLangChatChunk, String>,
    latency: Duration,
    tool_call_ids: &mut Vec<String>,
    created: u64,
) -> (r: Result<ProviderInferenceResponseChunk, Error>)
    ensures
        match decoded {
            Err(fault) => {
                &&& r matches Err(e)
                &&& is_server_error(e, chunk_decode_text(fault@), None, Some(data@))
                &&& final(tool_call_ids)@ == old(tool_call_ids)@
            },
            Ok(chunk) => is_chunk_of(
                r,
                old(tool_call_ids)@,
                final(tool_call_ids)@,
                data,
                chunk,
                latency,
                created,
            ),
        },
{
    match decoded {
        Err(fault) => {
            let mut message = String::from_str("Error parsing chunk. Error: ");
            message.append(fault.as_str());
            Err(server_error(message, None, Some(data)))
        },
        Ok(chunk) => sglang_to_tensorzero_chunk(data, chunk, latency, tool_call_ids, created),
    }
}

/// What a call of the provider needs before it goes out.
pub struct InferPlan<'a> {
    /// The request in the provider's terms.
    pub request: SGLangRequest<'a>,
    /// The address of the endpoint.
    pub url: Url,
    /// The key for the bearer header; the call is anonymous without one.
    pub api_key: Option<&'a ApiKey>,
}

/// The text of the error for an answer whose text could not be read.
pub open spec fn body_read_text(success: bool, fault: Seq<char>) -> Seq<char> {
    if success {
        "Error parsing text response: "@ + fault
    } else {
        "Error parsing error response: "@ + fault
    }
}

/// The text of the error for an answer that is no JSON of the expected shape.
pub open spec fn body_decode_text(fault: Seq<char>) -> Seq<char> {
    "Error parsing JSON response: "@ + fault
}

impl SGLangProvider {
    /// Prepares a call: the request in the provider's terms, the address of
    /// the chat completions endpoint under the base address, and the key.
    /// The three are made in this order, and the first that fails gives the error.
    pub fn prepare_infer<'a>(
        &'a self,
        request: &ModelInferenceRequest,
        dynamic_api_keys: &'a InferenceCredentials,
    ) -> (r: Result<InferPlan<'a>, Error>)
        ensures
            match request_fault(*request) {
                Some(fault) => r matches Err(e) && is_request_error(e, *request, fault),
                None => match endpoint_text(url_text(self.base()), "chat/completions"@) {
                    None => r matches Err(e) && e.details matches ErrorDetails::InvalidBaseUrl {
                        message,
                    } && message@ == chat_url_text(),
                    Some(address) => match r {
                        Ok(plan) => {
                            &&& is_wire_request(plan.request, self.model(), *request)
                            &&& url_text(plan.url) == address
                            &&& is_key_of(Ok(plan.api_key), self.creds(), *dynamic_api_keys)
                        },
                        Err(e) => is_key_of(Err(e), self.creds(), *dynamic_api_keys),
                    },
                },
            },
    {
        let request = match SGLangRequest::new(self.model_name.as_str(), request) {
            Ok(r) => r,
            Err(e) => {
                return Err(e);
            },
        };
        let url = match get_chat_url(&self.api_base) {
            Ok(u) => u,
            Err(e) => {
                return Err(e);
            },
        };
        let api_key = match self.credentials.get_api_key(dynamic_api_keys) {
            Ok(k) => k,
            Err(e) => {
                return Err(e);
            },
        };
        Ok(InferPlan { request, url, api_key })
    }
}

/// The text of the error for a request that could not be sent.
pub open spec fn send_text(fault: Seq<char>) -> Seq<char> {
    "Error sending request to SGLang: "@ + fault
}

/// The error for a request that could not be sent: an error of the
/// provider's server that carries the request.
pub fn infer_send_error(raw_request: &str, fault: &str) -> (e: Error)
    ensures
        is_server_error(e, send_text(fault@), Some(raw_request@), None),
{
    let mut message = String::from_str("Error sending request to SGLang: ");
    message.append(fault);
    server_error(message, Some(raw_request.to_string()), None)
}

/// Decides on the answer to a call that is not streamed, once its status
/// and its text are in: the text to decode, where the status stands for
/// success; else the error. `body` is the text of the answer, or the text
/// of what went wrong in reading it.
pub fn infer_body(raw_request: &str, status: u16, body: Result<String, String>) -> (r: Result<String, Error>)
    ensures
        match body {
            Ok(text) => if status_is_success(status) {
                r == Ok::<String, Error>(text)
            } else {
                r matches Err(e) && is_server_error(e, text@, Some(raw_request@), Some(text@))
            },
            Err(fault) => r matches Err(e) && is_server_error(
                e,
                body_read_text(status_is_success(status), fault@),
                Some(raw_request@),
                None,
            ),
        },
{
    let success = is_success(status);
    match body {
        Ok(text) => {
            if success {
                Ok(text)
            } else {
                Err(handle_openai_error(raw_request, status, text.as_str(), "sglang"))
            }
        },
        Err(fault) => {
            let mut message = if success {
                String::from_str("Error parsing text response: ")
            } else {
                String::from_str("Error parsing error response: ")
            };
            message.append(fault.as_str());
            Err(server_error(message, Some(raw_request.to_string()), None))
        },
    }
}

/// Turns the decoded answer to a call into an answer of the gateway.
/// `decoded` is the answer read from the text `raw_response`, or the text
/// of what went wrong in reading it, which gives an error of the provider's
/// server that carries the request and the answer.
pub fn infer_response<'a>(
    decoded: Result<OpenAIResponse, String>,
    raw_response: String,
    raw_request: String,
    latency: Latency,
    generic_request: &'a ModelInferenceRequest,
    id: Uuid,
    created: u64,
) -> (r: Result<ProviderInferenceResponse, Error>)
    ensures
        match decoded {
            Err(fault) => r matches Err(e) && is_server_error(
                e,
                body_decode_text(fault@),
                Some(raw_request@),
                Some(raw_response@),
            ),
            Ok(response) => is_response_of(
                r,
                SGLangResponseWithMetadata { response, latency, raw_response, raw_request, generic_request },
                id,
                created,
            ),
        },
{
    match decoded {
        Err(fault) => {
            let mut message = String::from_str("Error parsing JSON response: ");
            message.append(fault.as_str());
            Err(server_error(message, Some(raw_request), Some(raw_response)))
        },
        Ok(response) => sglang_response(
            SGLangResponseWithMetadata { response, latency, raw_response, raw_request, generic_request },
            id,
            created,
        ),
    }
}

/// The error for a batch operation: the provider has none.
pub fn batch_unsupported() -> (e: Error)
    ensures
        e.details matches ErrorDetails::UnsupportedModelProviderForBatchInference { provider_type: p }
            && p@ == provider_type(),
{
    Error::new(
        ErrorDetails::UnsupportedModelProviderForBatchInference {
            provider_type: String::from_str("sglang"),
        },
    )
}

} // verus!
