//! The values that pass through the gateway: what a caller sends, what a
//! model is asked and what it answers, whole or in chunks.

use vstd::prelude::*;
use serde_json::Value;
use std::time::Duration;
use uuid::Uuid;

verus! {

/// `Duration::clone` copies the span of time.
pub assume_specification[ <core::time::Duration as Clone>::clone ](d: &core::time::Duration) -> (r:
    core::time::Duration)
    ensures
        r == *d,
;

/// Who speaks in a message.
#[derive(Debug, Clone, Copy, PartialEq, Eq, Structural)]
pub enum Role {
    User,
    Assistant,
}

impl Role {
    /// The name of the role, in lower case.
    pub open spec fn name(self) -> Seq<char> {
        match self {
            Role::User => "user"@,
            Role::Assistant => "assistant"@,
        }
    }

    /// The name of the role, in lower case.
    pub fn as_str(&self) -> (r: &'static str)
        ensures
            r@ == self.name(),
    {
        match self {
            Role::User => "user",
            Role::Assistant => "assistant",
        }
    }
}

/// The text of an input block: plain, or the arguments of a template.
#[derive(Debug, Clone, PartialEq)]
pub enum TextKind {
    /// Plain text.
    Text { text: String },
    /// The arguments of the role's template: a JSON object.
    Arguments { arguments: Value },
    /// A JSON value that may be either of the two.
    LegacyValue { value: Value },
}

/// A call of a tool, as a model issued it.
#[derive(Debug, Clone, PartialEq)]
pub struct ToolCall {
    pub id: String,
    pub name: String,
    pub arguments: String,
}

/// What a tool answered to a call.
#[derive(Debug, Clone, PartialEq)]
pub struct ToolResult {
    pub id: String,
    pub name: String,
    pub result: String,
}

/// A file, by its media type and its content in base 64.
#[derive(Debug, Clone, PartialEq)]
pub struct File {
    pub mime_type: String,
    pub data: String,
}

/// A thought of a model, with the signature that some providers attach.
#[derive(Debug, Clone, PartialEq)]
pub struct Thought {
    pub text: String,
    pub signature: Option<String>,
}

/// A piece of text.
#[derive(Debug, Clone, PartialEq)]
pub struct Text {
    pub text: String,
}

/// One block of the content of an input message.
#[derive(Debug, Clone, PartialEq)]
pub enum InputMessageContent {
    Text(TextKind),
    /// Text that goes to the model as it is, past any schema.
    RawText { value: String },
    ToolCall(ToolCall),
    ToolResult(ToolResult),
    File(File),
    Thought(Thought),
}

/// A message of the input.
#[derive(Debug, Clone, PartialEq)]
pub struct InputMessage {
    pub role: Role,
    pub content: Vec<InputMessageContent>,
}

/// The input of an inference: an optional system value and the messages.
#[derive(Debug, Clone, PartialEq)]
pub struct Input {
    pub system: Option<Value>,
    pub messages: Vec<InputMessage>,
}

impl From<String> for InputMessageContent {
    fn from(text: String) -> (r: InputMessageContent) {
        InputMessageContent::Text(TextKind::Text { text })
    }
}

impl vstd::std_specs::convert::FromSpecImpl<String> for InputMessageContent {
    open spec fn obeys_from_spec() -> bool {
        true
    }

    open spec fn from_spec(text: String) -> InputMessageContent {
        InputMessageContent::Text(TextKind::Text { text })
    }
}

/// One block of what a model answered.
#[derive(Debug, Clone, PartialEq)]
pub enum ContentBlockOutput {
    Text(Text),
    ToolCall(ToolCall),
    Thought(Thought),
    /// A block of a kind that only its provider knows.
    Unknown { data: Value, model_provider_name: Option<String> },
}

impl From<String> for ContentBlockOutput {
    fn from(text: String) -> (r: ContentBlockOutput) {
        ContentBlockOutput::Text(Text { text })
    }
}

impl vstd::std_specs::convert::FromSpecImpl<String> for ContentBlockOutput {
    open spec fn obeys_from_spec() -> bool {
        true
    }

    open spec fn from_spec(text: String) -> ContentBlockOutput {
        ContentBlockOutput::Text(Text { text })
    }
}

/// One block of a message that goes to a model.
#[derive(Debug, Clone, PartialEq)]
pub enum ContentBlock {
    Text(Text),
    ToolCall(ToolCall),
    ToolResult(ToolResult),
    File(File),
    Thought(Thought),
}

impl From<String> for ContentBlock {
    fn from(text: String) -> (r: ContentBlock) {
        ContentBlock::Text(Text { text })
    }
}

impl vstd::std_specs::convert::FromSpecImpl<String> for ContentBlock {
    open spec fn obeys_from_spec() -> bool {
        true
    }

    open spec fn from_spec(text: String) -> ContentBlock {
        ContentBlock::Text(Text { text })
    }
}

/// A message that goes to a model.
#[derive(Debug, Clone, PartialEq)]
pub struct RequestMessage {
    pub role: Role,
    pub content: Vec<ContentBlock>,
}

impl ContentBlock {
    /// A copy of this block.
    pub fn copy(&self) -> (r: ContentBlock)
        ensures
            r == *self,
    {
        match self {
            ContentBlock::Text(t) => ContentBlock::Text(Text { text: t.text.clone() }),
            ContentBlock::ToolCall(c) => ContentBlock::ToolCall(
                ToolCall { id: c.id.clone(), name: c.name.clone(), arguments: c.arguments.clone() },
            ),
            ContentBlock::ToolResult(r) => ContentBlock::ToolResult(
                ToolResult { id: r.id.clone(), name: r.name.clone(), result: r.result.clone() },
            ),
            ContentBlock::File(f) => ContentBlock::File(
                File { mime_type: f.mime_type.clone(), data: f.data.clone() },
            ),
            ContentBlock::Thought(t) => ContentBlock::Thought(
                Thought { text: t.text.clone(), signature: t.signature.clone() },
            ),
        }
    }
}

impl RequestMessage {
    /// A copy of this message.
    pub fn copy(&self) -> (r: RequestMessage)
        ensures
            r.role == self.role,
            r.content@ == self.content@,
    {
        let mut content: Vec<ContentBlock> = Vec::new();
        let mut i: usize = 0;
        while i < self.content.len()
            invariant
                i <= self.content@.len(),
                content@ == self.content@.take(i as int),
            decreases self.content@.len() - i,
        {
            content.push(self.content[i].copy());
            assert(content@ =~= self.content@.take(i + 1));
            i = i + 1;
        }
        assert(self.content@.take(self.content@.len() as int) =~= self.content@);
        RequestMessage { role: self.role, content }
    }
}

/// Says that `b` holds what `a` holds: the same messages, block for block.
pub open spec fn same_messages(a: Seq<RequestMessage>, b: Seq<RequestMessage>) -> bool {
    &&& a.len() == b.len()
    &&& forall|i: int|
        0 <= i < a.len() ==> (#[trigger] a[i]).role == b[i].role && a[i].content@ == b[i].content@
}

/// Copies a list of messages.
pub fn copy_messages(messages: &Vec<RequestMessage>) -> (r: Vec<RequestMessage>)
    ensures
        same_messages(messages@, r@),
{
    let mut out: Vec<RequestMessage> = Vec::new();
    let mut i: usize = 0;
    while i < messages.len()
        invariant
            i <= messages@.len(),
            out@.len() == i,
            forall|j: int|
                0 <= j < i ==> (#[trigger] messages@[j]).role == out@[j].role && messages@[j].content@
                    == out@[j].content@,
        decreases messages@.len() - i,
    {
        out.push(messages[i].copy());
        i = i + 1;
    }
    out
}

/// The tokens that a call consumed and produced.
#[derive(Debug, Clone, Copy, PartialEq, Eq, Structural)]
pub struct Usage {
    pub input_tokens: u32,
    pub output_tokens: u32,
}

/// Why a model stopped.
#[derive(Debug, Clone, Copy, PartialEq, Eq, Structural)]
pub enum FinishReason {
    Stop,
    Length,
    ToolCall,
    ContentFilter,
    Unknown,
}

/// How long a call took.
#[derive(Debug, Clone, PartialEq)]
pub enum Latency {
    Streaming { ttft: Duration, response_time: Duration },
    NonStreaming { response_time: Duration },
    Batch,
}

/// A piece of text of a streamed answer; pieces with one id make one block.
#[derive(Debug, Clone, PartialEq)]
pub struct TextChunk {
    pub id: String,
    pub text: String,
}

/// A piece of a tool call of a streamed answer; pieces with one id make one call.
#[derive(Debug, Clone, PartialEq)]
pub struct ToolCallChunk {
    pub id: String,
    pub raw_name: Option<String>,
    pub raw_arguments: String,
}

/// A piece of a thought of a streamed answer.
#[derive(Debug, Clone, PartialEq)]
pub struct ThoughtChunk {
    pub id: String,
    pub text: Option<String>,
    pub signature: Option<String>,
}

/// One block of a chunk of a streamed answer.
#[derive(Debug, Clone, PartialEq)]
pub enum ContentBlockChunk {
    Text(TextChunk),
    ToolCall(ToolCallChunk),
    Thought(ThoughtChunk),
}

/// One chunk of a streamed answer, as a provider's adapter hands it on.
#[derive(Debug, Clone, PartialEq)]
pub struct ProviderInferenceResponseChunk {
    pub content: Vec<ContentBlockChunk>,
    /// Seconds since the epoch at which the chunk was made.
    pub created: u64,
    pub usage: Option<Usage>,
    pub raw_response: String,
    pub latency: Duration,
    pub finish_reason: Option<FinishReason>,
}

impl ProviderInferenceResponseChunk {
    /// A chunk of these parts, made at the time `created`.
    pub fn new(
        content: Vec<ContentBlockChunk>,
        usage: Option<Usage>,
        raw_response: String,
        latency: Duration,
        finish_reason: Option<FinishReason>,
        created: u64,
    ) -> (r: ProviderInferenceResponseChunk)
        ensures
            r == (ProviderInferenceResponseChunk {
                content,
                created,
                usage,
                raw_response,
                latency,
                finish_reason,
            }),
    {
        ProviderInferenceResponseChunk { content, created, usage, raw_response, latency, finish_reason }
    }
}

/// The parts of a whole answer of a provider.
#[derive(Debug, Clone, PartialEq)]
pub struct ProviderInferenceResponseArgs {
    pub output: Vec<ContentBlockOutput>,
    pub system: Option<String>,
    pub input_messages: Vec<RequestMessage>,
    pub raw_request: String,
    pub raw_response: String,
    pub usage: Usage,
    pub latency: Latency,
    pub finish_reason: Option<FinishReason>,
}

/// A whole answer of a provider.
#[derive(Debug, Clone, PartialEq)]
pub struct ProviderInferenceResponse {
    pub id: Uuid,
    /// Seconds since the epoch at which the answer was made.
    pub created: u64,
    pub output: Vec<ContentBlockOutput>,
    pub system: Option<String>,
    pub input_messages: Vec<RequestMessage>,
    pub raw_request: String,
    pub raw_response: String,
    pub usage: Usage,
    pub latency: Latency,
    pub finish_reason: Option<FinishReason>,
}

impl ProviderInferenceResponse {
    /// An answer of these parts, with the identifier `id`, made at the time `created`.
    pub fn new(args: ProviderInferenceResponseArgs, id: Uuid, created: u64) -> (r:
        ProviderInferenceResponse)
        ensures
            r == (ProviderInferenceResponse {
                id,
                created,
                output: args.output,
                system: args.system,
                input_messages: args.input_messages,
                raw_request: args.raw_request,
                raw_response: args.raw_response,
                usage: args.usage,
                latency: args.latency,
                finish_reason: args.finish_reason,
            }),
    {
        ProviderInferenceResponse {
            id,
            created,
            output: args.output,
            system: args.system,
            input_messages: args.input_messages,
            raw_request: args.raw_request,
            raw_response: args.raw_response,
            usage: args.usage,
            latency: args.latency,
            finish_reason: args.finish_reason,
        }
    }
}

/// An answer of a model with what is recorded of the call.
#[derive(Debug, Clone, PartialEq)]
pub struct ModelInferenceResponseWithMetadata {
    pub id: Uuid,
    pub created: u64,
    pub system: Option<String>,
    pub input_messages: Vec<RequestMessage>,
    pub output: Vec<ContentBlockOutput>,
    pub raw_request: String,
    pub raw_response: String,
    pub usage: Usage,
    pub latency: Latency,
    pub model_provider_name: String,
    pub model_name: String,
    pub finish_reason: Option<FinishReason>,
    pub cached: bool,
}

} // verus!
