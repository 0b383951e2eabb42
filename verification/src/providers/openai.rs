//! The wire form that OpenAI introduced and that other providers speak too.

use vstd::prelude::*;
use serde_json::Value;
use url::Url;
use crate::error::{Error, ErrorDetails};
use crate::model::ModelInferenceRequest;
use crate::text::{ends_with_char, has_prefix};
use crate::tool::{ToolChoice, ToolConfig};
use crate::types::{ContentBlock, FinishReason, RequestMessage, Role, Usage};
use crate::web::{endpoint, endpoint_text, url_text};

verus! {

/// One block of the content of a message on the wire.
#[derive(Debug, Clone, PartialEq)]
pub enum OpenAIContentBlock {
    Text { text: String },
    /// A file, sent as a data address of its media type and content.
    ImageUrl { mime_type: String, data: String },
}

/// A call of a tool in an assistant's message on the wire.
#[derive(Debug, Clone, PartialEq)]
pub struct OpenAIRequestToolCall {
    pub id: String,
    pub name: String,
    pub arguments: String,
}

/// A message on the wire.
#[derive(Debug, Clone, PartialEq)]
pub enum OpenAIRequestMessage {
    System { content: String },
    User { content: Vec<OpenAIContentBlock> },
    Assistant { content: Option<Vec<OpenAIContentBlock>>, tool_calls: Option<Vec<OpenAIRequestToolCall>> },
    Tool { content: String, tool_call_id: String },
}

/// A message on the wire, as a specification speaks of it.
pub enum OpenAIMessageModel {
    System { content: Seq<char> },
    User { content: Seq<OpenAIContentBlock> },
    Assistant { content: Option<Seq<OpenAIContentBlock>>, tool_calls: Option<Seq<OpenAIRequestToolCall>> },
    Tool { content: Seq<char>, tool_call_id: Seq<char> },
}

impl View for OpenAIRequestMessage {
    type V = OpenAIMessageModel;

    open spec fn view(&self) -> OpenAIMessageModel {
        match *self {
            OpenAIRequestMessage::System { content } => OpenAIMessageModel::System { content: content@ },
            OpenAIRequestMessage::User { content } => OpenAIMessageModel::User { content: content@ },
            OpenAIRequestMessage::Assistant { content, tool_calls } => OpenAIMessageModel::Assistant {
                content: match content {
                    Some(c) => Some(c@),
                    None => None,
                },
                tool_calls: match tool_calls {
                    Some(c) => Some(c@),
                    None => None,
                },
            },
            OpenAIRequestMessage::Tool { content, tool_call_id } => OpenAIMessageModel::Tool {
                content: content@,
                tool_call_id: tool_call_id@,
            },
        }
    }
}

/// The views of a list of messages on the wire.
pub open spec fn message_models(v: Seq<OpenAIRequestMessage>) -> Seq<OpenAIMessageModel> {
    v.map_values(|m: OpenAIRequestMessage| m@)
}

/// What the blocks of a user's message have given so far: the messages of
/// role tool, one for each tool result, and the content of the user's own.
pub open spec fn user_parts(blocks: Seq<ContentBlock>) -> (Seq<OpenAIMessageModel>, Seq<OpenAIContentBlock>)
    decreases blocks.len(),
{
    if blocks.len() == 0 {
        (Seq::<OpenAIMessageModel>::empty(), Seq::<OpenAIContentBlock>::empty())
    } else {
        let (tools, content) = user_parts(blocks.drop_last());
        match blocks.last() {
            ContentBlock::Text(t) => (tools, content.push(OpenAIContentBlock::Text { text: t.text })),
            ContentBlock::File(f) => (
                tools,
                content.push(OpenAIContentBlock::ImageUrl { mime_type: f.mime_type, data: f.data }),
            ),
            ContentBlock::ToolResult(r) => (
                tools.push(OpenAIMessageModel::Tool { content: r.result@, tool_call_id: r.id@ }),
                content,
            ),
            _ => (tools, content),
        }
    }
}

/// The messages on the wire that a user's message becomes: those of role
/// tool first, then the user's own where it has content.
pub open spec fn user_messages(blocks: Seq<ContentBlock>) -> Seq<OpenAIMessageModel> {
    let (tools, content) = user_parts(blocks);
    if content.len() == 0 {
        tools
    } else {
        tools.push(OpenAIMessageModel::User { content })
    }
}

/// What the blocks of an assistant's message have given so far: its content
/// and its tool calls.
pub open spec fn assistant_parts(blocks: Seq<ContentBlock>) -> (Seq<OpenAIContentBlock>, Seq<OpenAIRequestToolCall>)
    decreases blocks.len(),
{
    if blocks.len() == 0 {
        (Seq::<OpenAIContentBlock>::empty(), Seq::<OpenAIRequestToolCall>::empty())
    } else {
        let (content, calls) = assistant_parts(blocks.drop_last());
        match blocks.last() {
            ContentBlock::Text(t) => (content.push(OpenAIContentBlock::Text { text: t.text }), calls),
            ContentBlock::File(f) => (
                content.push(OpenAIContentBlock::ImageUrl { mime_type: f.mime_type, data: f.data }),
                calls,
            ),
            ContentBlock::ToolCall(c) => (
                content,
                calls.push(OpenAIRequestToolCall { id: c.id, name: c.name, arguments: c.arguments }),
            ),
            _ => (content, calls),
        }
    }
}

/// The message on the wire that an assistant's message becomes.
pub open spec fn assistant_message(blocks: Seq<ContentBlock>) -> OpenAIMessageModel {
    let (content, calls) = assistant_parts(blocks);
    OpenAIMessageModel::Assistant {
        content: if content.len() == 0 {
            None
        } else {
            Some(content)
        },
        tool_calls: if calls.len() == 0 {
            None
        } else {
            Some(calls)
        },
    }
}

/// Whether a message holds a block that its role cannot send: a tool call
/// in a user's message, a tool result in an assistant's.
pub open spec fn misplaced(message: RequestMessage) -> bool {
    match message.role {
        Role::User => exists|i: int|
            0 <= i < message.content@.len() && (#[trigger] message.content@[i]) is ToolCall,
        Role::Assistant => exists|i: int|
            0 <= i < message.content@.len() && (#[trigger] message.content@[i]) is ToolResult,
    }
}

/// The messages on the wire that one message becomes.
pub open spec fn wire_messages(message: RequestMessage) -> Seq<OpenAIMessageModel> {
    match message.role {
        Role::User => user_messages(message.content@),
        Role::Assistant => seq![assistant_message(message.content@)],
    }
}

/// The messages on the wire that a list of messages becomes.
pub open spec fn all_wire_messages(messages: Seq<RequestMessage>) -> Seq<OpenAIMessageModel>
    decreases messages.len(),
{
    if messages.len() == 0 {
        Seq::<OpenAIMessageModel>::empty()
    } else {
        all_wire_messages(messages.drop_last()) + wire_messages(messages.last())
    }
}

/// The place of the first message from `k` on that holds a misplaced block;
/// the number of messages where none does.
pub open spec fn first_misplaced_from(messages: Seq<RequestMessage>, k: int) -> int
    decreases messages.len() - k,
{
    if k < 0 || k >= messages.len() {
        messages.len() as int
    } else if misplaced(messages[k]) {
        k
    } else {
        first_misplaced_from(messages, k + 1)
    }
}

/// The text of the error for a block that its role cannot send.
pub open spec fn misplaced_text(role: Role) -> Seq<char> {
    match role {
        Role::User => "Tool calls are not supported in user messages"@,
        Role::Assistant => "Tool results are not supported in assistant messages"@,
    }
}

/// The system message, where there is a system prompt.
pub open spec fn system_messages(system: Option<Seq<char>>) -> Seq<OpenAIMessageModel> {
    match system {
        Some(content) => seq![OpenAIMessageModel::System { content }],
        None => Seq::<OpenAIMessageModel>::empty(),
    }
}

fn user_to_wire(blocks: &Vec<ContentBlock>, out: &mut Vec<OpenAIRequestMessage>) -> (ok: bool)
    ensures
        ok == !misplaced(RequestMessage { role: Role::User, content: *blocks }),
        ok ==> message_models(final(out)@) == message_models(old(out)@) + user_messages(blocks@),
{
    let ghost before = message_models(out@);
    let mut content: Vec<OpenAIContentBlock> = Vec::new();
    let mut i: usize = 0;
    proof {
        assert(blocks@.take(0) =~= Seq::<ContentBlock>::empty());
        assert(before + user_parts(blocks@.take(0)).0 =~= before);
    }
    while i < blocks.len()
        invariant
            i <= blocks@.len(),
            message_models(out@) == before + user_parts(blocks@.take(i as int)).0,
            content@ == user_parts(blocks@.take(i as int)).1,
            forall|j: int| 0 <= j < i ==> !((#[trigger] blocks@[j]) is ToolCall),
        decreases blocks@.len() - i,
    {
        proof {
            assert(blocks@.take(i + 1).drop_last() =~= blocks@.take(i as int));
            assert(blocks@.take(i + 1).last() == blocks@[i as int]);
        }
        let ghost models = message_models(out@);
        match &blocks[i] {
            ContentBlock::Text(t) => {
                content.push(OpenAIContentBlock::Text { text: t.text.clone() });
            },
            ContentBlock::File(f) => {
                content.push(
                    OpenAIContentBlock::ImageUrl { mime_type: f.mime_type.clone(), data: f.data.clone() },
                );
            },
            ContentBlock::ToolResult(r) => {
                out.push(
                    OpenAIRequestMessage::Tool { content: r.result.clone(), tool_call_id: r.id.clone() },
                );
                proof {
                    assert(message_models(out@) =~= models.push(
                        OpenAIMessageModel::Tool { content: r.result@, tool_call_id: r.id@ },
                    ));
                    assert(message_models(out@) =~= before + user_parts(blocks@.take(i + 1)).0);
                }
            },
            ContentBlock::ToolCall(_) => {
                return false;
            },
            ContentBlock::Thought(_) => {},
        }
        i = i + 1;
    }
    proof {
        assert(blocks@.take(blocks@.len() as int) =~= blocks@);
    }
    if content.len() > 0 {
        let ghost models = message_models(out@);
        out.push(OpenAIRequestMessage::User { content });
        proof {
            assert(message_models(out@) =~= models.push(OpenAIMessageModel::User { content: content@ }));
            assert(message_models(out@) =~= before + user_messages(blocks@));
        }
    }
    true
}

fn assistant_to_wire(blocks: &Vec<ContentBlock>, out: &mut Vec<OpenAIRequestMessage>) -> (ok: bool)
    ensures
        ok == !misplaced(RequestMessage { role: Role::Assistant, content: *blocks }),
        ok ==> message_models(final(out)@) == message_models(old(out)@).push(
            assistant_message(blocks@),
        ),
{
    let ghost before = message_models(out@);
    let mut content: Vec<OpenAIContentBlock> = Vec::new();
    let mut calls: Vec<OpenAIRequestToolCall> = Vec::new();
    let mut i: usize = 0;
    proof {
        assert(blocks@.take(0) =~= Seq::<ContentBlock>::empty());
    }
    while i < blocks.len()
        invariant
            i <= blocks@.len(),
            out@ == old(out)@,
            content@ == assistant_parts(blocks@.take(i as int)).0,
            calls@ == assistant_parts(blocks@.take(i as int)).1,
            forall|j: int| 0 <= j < i ==> !((#[trigger] blocks@[j]) is ToolResult),
        decreases blocks@.len() - i,
    {
        proof {
            assert(blocks@.take(i + 1).drop_last() =~= blocks@.take(i as int));
            assert(blocks@.take(i + 1).last() == blocks@[i as int]);
        }
        match &blocks[i] {
            ContentBlock::Text(t) => {
                content.push(OpenAIContentBlock::Text { text: t.text.clone() });
            },
            ContentBlock::File(f) => {
                content.push(
                    OpenAIContentBlock::ImageUrl { mime_type: f.mime_type.clone(), data: f.data.clone() },
                );
            },
            ContentBlock::ToolCall(c) => {
                calls.push(
                    OpenAIRequestToolCall {
                        id: c.id.clone(),
                        name: c.name.clone(),
                        arguments: c.arguments.clone(),
                    },
                );
            },
            ContentBlock::ToolResult(_) => {
                return false;
            },
            ContentBlock::Thought(_) => {},
        }
        i = i + 1;
    }
    proof {
        assert(blocks@.take(blocks@.len() as int) =~= blocks@);
    }
    let content = if content.len() == 0 {
        None
    } else {
        Some(content)
    };
    let tool_calls = if calls.len() == 0 {
        None
    } else {
        Some(calls)
    };
    out.push(OpenAIRequestMessage::Assistant { content, tool_calls });
    proof {
        assert(message_models(out@) =~= before.push(assistant_message(blocks@)));
    }
    true
}

/// Translates the system prompt and the messages of a request into messages
/// on the wire, in their order: the system prompt first; for a user's
/// message, one message of role tool for each tool result and then one of
/// role user with the text and the files; for an assistant's message, one
/// message with its text, files and tool calls. Thoughts are not sent. A
/// tool call in a user's message, or a tool result in an assistant's, is an
/// `InvalidMessage` error.
pub fn prepare_openai_messages(system: Option<&str>, messages: &Vec<RequestMessage>) -> (r: Result<
    Vec<OpenAIRequestMessage>,
    Error,
>)
    ensures
        ({
            let bad = first_misplaced_from(messages@, 0);
            if bad < messages@.len() {
                r matches Err(e) && e.is_invalid_message(misplaced_text(messages@[bad].role))
            } else {
                r matches Ok(out) && message_models(out@) == system_messages(
                    match system {
                        Some(s) => Some(s@),
                        None => None,
                    },
                ) + all_wire_messages(messages@)
            }
        }),
{
    let mut out: Vec<OpenAIRequestMessage> = Vec::new();
    if let Some(s) = system {
        out.push(OpenAIRequestMessage::System { content: s.to_string() });
    }
    let ghost head = message_models(out@);
    let mut k: usize = 0;
    proof {
        assert(messages@.take(0) =~= Seq::<RequestMessage>::empty());
        assert(head + all_wire_messages(messages@.take(0)) =~= head);
        assert(head =~= system_messages(
            match system {
                Some(s) => Some(s@),
                None => None,
            },
        ));
    }
    while k < messages.len()
        invariant
            k <= messages@.len(),
            message_models(out@) == head + all_wire_messages(messages@.take(k as int)),
            first_misplaced_from(messages@, 0) == first_misplaced_from(messages@, k as int),
        decreases messages@.len() - k,
    {
        let message = &messages[k];
        proof {
            assert(messages@.take(k + 1).drop_last() =~= messages@.take(k as int));
            assert(messages@.take(k + 1).last() == messages@[k as int]);
        }
        let ghost models = message_models(out@);
        let ok = match message.role {
            Role::User => user_to_wire(&message.content, &mut out),
            Role::Assistant => assistant_to_wire(&message.content, &mut out),
        };
        if !ok {
            let text = match message.role {
                Role::User => "Tool calls are not supported in user messages",
                Role::Assistant => "Tool results are not supported in assistant messages",
            };
            return Err(Error::new(ErrorDetails::InvalidMessage { message: String::from_str(text) }));
        }
        proof {
            assert(message_models(out@) =~= models + wire_messages(messages@[k as int]));
            assert(message_models(out@) =~= head + all_wire_messages(messages@.take(k + 1)));
        }
        k = k + 1;
    }
    proof {
        assert(messages@.take(messages@.len() as int) =~= messages@);
    }
    Ok(out)
}

/// A function that a model may call, on the wire.
#[derive(Debug, Clone, PartialEq)]
pub struct OpenAIFunction {
    pub name: String,
    pub description: Option<String>,
    pub parameters: Value,
}

/// A tool on the wire. Tools are functions.
#[derive(Debug, Clone, PartialEq)]
pub struct OpenAITool {
    pub function: OpenAIFunction,
    pub strict: bool,
}

/// A choice of tool on the wire that names no tool.
#[derive(Debug, Clone, Copy, PartialEq, Eq, Structural)]
pub enum OpenAIToolChoiceString {
    Never,
    Auto,
    Required,
}

/// A choice of tool on the wire.
#[derive(Debug, Clone, PartialEq)]
pub enum OpenAIToolChoice {
    String(OpenAIToolChoiceString),
    /// The function of this name.
    Specific(String),
}

/// Whether usage is to come with the stream.
#[derive(Debug, Clone, Copy, PartialEq, Eq, Structural)]
pub struct StreamOptions {
    pub include_usage: bool,
}

/// Says that `tool` is the tool `config` on the wire.
pub open spec fn is_wire_tool(tool: OpenAITool, config: ToolConfig) -> bool {
    &&& tool.function.name@ == config.name_text()
    &&& tool.function.description matches Some(d)
    &&& d@ == config.description_text()
    &&& tool.function.parameters == config.parameters_value()
    &&& tool.strict == config.is_strict()
}

/// Says that `choice` is the choice `c` on the wire.
pub open spec fn is_wire_choice(choice: OpenAIToolChoice, c: ToolChoice) -> bool {
    match c {
        ToolChoice::Never => choice == OpenAIToolChoice::String(OpenAIToolChoiceString::Never),
        ToolChoice::Auto => choice == OpenAIToolChoice::String(OpenAIToolChoiceString::Auto),
        ToolChoice::Required => choice == OpenAIToolChoice::String(OpenAIToolChoiceString::Required),
        ToolChoice::Specific(name) => choice matches OpenAIToolChoice::Specific(n) && n@ == name@,
    }
}

/// The tool `config` on the wire.
pub fn wire_tool(config: &ToolConfig) -> (tool: OpenAITool)
    ensures
        is_wire_tool(tool, *config),
{
    OpenAITool {
        function: OpenAIFunction {
            name: config.name().to_string(),
            description: Some(config.description().to_string()),
            parameters: config.parameters().clone(),
        },
        strict: config.strict(),
    }
}

/// The choice `c` on the wire.
pub fn wire_choice(c: &ToolChoice) -> (choice: OpenAIToolChoice)
    ensures
        is_wire_choice(choice, *c),
{
    match c {
        ToolChoice::Never => OpenAIToolChoice::String(OpenAIToolChoiceString::Never),
        ToolChoice::Auto => OpenAIToolChoice::String(OpenAIToolChoiceString::Auto),
        ToolChoice::Required => OpenAIToolChoice::String(OpenAIToolChoiceString::Required),
        ToolChoice::Specific(name) => OpenAIToolChoice::Specific(name.clone()),
    }
}

/// Says that `tools`, `choice` and `parallel` are what the tools `config`
/// of a request become on the wire: nothing where there is no tool.
pub open spec fn are_wire_tools(
    tools: Option<Vec<OpenAITool>>,
    choice: Option<OpenAIToolChoice>,
    parallel: Option<bool>,
    config: Option<crate::tool::ToolCallConfig>,
) -> bool {
    if config is Some && config->Some_0.tools_available@.len() > 0 {
        let config = config->Some_0;
        &&& tools is Some
        &&& tools->Some_0@.len() == config.tools_available@.len()
        &&& forall|i: int|
            0 <= i < config.tools_available@.len() ==> is_wire_tool(
                #[trigger] tools->Some_0@[i],
                config.tools_available@[i],
            )
        &&& choice is Some
        &&& is_wire_choice(choice->Some_0, config.tool_choice)
        &&& parallel == config.parallel_tool_calls
    } else {
        tools is None && choice is None && parallel is None
    }
}

/// The tools of a request on the wire, with the choice among them and the
/// setting for parallel calls. A request without tools sends none of the three.
pub fn prepare_openai_tools(request: &ModelInferenceRequest) -> (r: (
    Option<Vec<OpenAITool>>,
    Option<OpenAIToolChoice>,
    Option<bool>,
))
    ensures
        are_wire_tools(r.0, r.1, r.2, request.tool_config),
{
    match &request.tool_config {
        None => (None, None, None),
        Some(config) => {
            if config.tools_available.len() == 0 {
                return (None, None, None);
            }
            let mut tools: Vec<OpenAITool> = Vec::new();
            let mut i: usize = 0;
            while i < config.tools_available.len()
                invariant
                    i <= config.tools_available@.len(),
                    tools@.len() == i,
                    forall|j: int|
                        0 <= j < i ==> is_wire_tool(#[trigger] tools@[j], config.tools_available@[j]),
                decreases config.tools_available@.len() - i,
            {
                tools.push(wire_tool(&config.tools_available[i]));
                i = i + 1;
            }
            (Some(tools), Some(wire_choice(&config.tool_choice)), config.parallel_tool_calls)
        },
    }
}

/// Why a model stopped, on the wire.
#[derive(Debug, Clone, Copy, PartialEq, Eq, Structural)]
pub enum OpenAIFinishReason {
    Stop,
    Length,
    ContentFilter,
    ToolCalls,
    FunctionCall,
    Unknown,
}

impl OpenAIFinishReason {
    /// The reason in the gateway's terms.
    pub open spec fn reason(self) -> FinishReason {
        match self {
            OpenAIFinishReason::Stop => FinishReason::Stop,
            OpenAIFinishReason::Length => FinishReason::Length,
            OpenAIFinishReason::ContentFilter => FinishReason::ContentFilter,
            OpenAIFinishReason::ToolCalls => FinishReason::ToolCall,
            OpenAIFinishReason::FunctionCall => FinishReason::ToolCall,
            OpenAIFinishReason::Unknown => FinishReason::Unknown,
        }
    }
}

impl From<OpenAIFinishReason> for FinishReason {
    fn from(reason: OpenAIFinishReason) -> (r: FinishReason) {
        match reason {
            OpenAIFinishReason::Stop => FinishReason::Stop,
            OpenAIFinishReason::Length => FinishReason::Length,
            OpenAIFinishReason::ContentFilter => FinishReason::ContentFilter,
            OpenAIFinishReason::ToolCalls => FinishReason::ToolCall,
            OpenAIFinishReason::FunctionCall => FinishReason::ToolCall,
            OpenAIFinishReason::Unknown => FinishReason::Unknown,
        }
    }
}

impl vstd::std_specs::convert::FromSpecImpl<OpenAIFinishReason> for FinishReason {
    open spec fn obeys_from_spec() -> bool {
        true
    }

    open spec fn from_spec(reason: OpenAIFinishReason) -> FinishReason {
        reason.reason()
    }
}

/// The tokens of a call, on the wire.
#[derive(Debug, Clone, Copy, PartialEq, Eq, Structural)]
pub struct OpenAIUsage {
    pub prompt_tokens: u32,
    pub completion_tokens: u32,
    pub total_tokens: u32,
}

impl From<OpenAIUsage> for Usage {
    fn from(usage: OpenAIUsage) -> (r: Usage) {
        Usage { input_tokens: usage.prompt_tokens, output_tokens: usage.completion_tokens }
    }
}

impl vstd::std_specs::convert::FromSpecImpl<OpenAIUsage> for Usage {
    open spec fn obeys_from_spec() -> bool {
        true
    }

    open spec fn from_spec(usage: OpenAIUsage) -> Usage {
        Usage { input_tokens: usage.prompt_tokens, output_tokens: usage.completion_tokens }
    }
}

/// The function of a tool call in an answer.
#[derive(Debug, Clone, PartialEq)]
pub struct OpenAIResponseFunctionCall {
    pub name: String,
    pub arguments: String,
}

/// A tool call in an answer.
#[derive(Debug, Clone, PartialEq)]
pub struct OpenAIResponseToolCall {
    pub id: String,
    pub function: OpenAIResponseFunctionCall,
}

/// The message of a choice of an answer.
#[derive(Debug, Clone, PartialEq)]
pub struct OpenAIResponseMessage {
    pub content: Option<String>,
    pub tool_calls: Option<Vec<OpenAIResponseToolCall>>,
}

/// One choice of an answer.
#[derive(Debug, Clone, PartialEq)]
pub struct OpenAIResponseChoice {
    pub index: u8,
    pub message: OpenAIResponseMessage,
    pub finish_reason: OpenAIFinishReason,
}

/// An answer on the wire.
#[derive(Debug, Clone, PartialEq)]
pub struct OpenAIResponse {
    pub choices: Vec<OpenAIResponseChoice>,
    pub usage: OpenAIUsage,
}

/// Whether an HTTP status stands for success.
pub open spec fn status_is_success(status: u16) -> bool {
    200 <= status < 300
}

/// Whether an HTTP status stands for success.
pub fn is_success(status: u16) -> (r: bool)
    ensures
        r == status_is_success(status),
{
    200 <= status && status < 300
}

/// The error for an answer of a provider whose status stands for a
/// failure: an `InferenceServer` error with the body as its message, and
/// with the request and the body as they went over the wire.
pub fn handle_openai_error(raw_request: &str, status: u16, response_body: &str, provider_type: &str) -> (e:
    Error)
    ensures
        e.details matches ErrorDetails::InferenceServer {
            message,
            provider_type: p,
            raw_request: Some(req),
            raw_response: Some(resp),
        } && message@ == response_body@ && p@ == provider_type@ && req@ == raw_request@ && resp@
            == response_body@,
{
    Error::new(
        ErrorDetails::InferenceServer {
            message: response_body.to_string(),
            provider_type: provider_type.to_string(),
            raw_request: Some(raw_request.to_string()),
            raw_response: Some(response_body.to_string()),
        },
    )
}

/// The text of the error for a base address to which the endpoint cannot be joined.
pub open spec fn chat_url_text() -> Seq<char> {
    "Failed to join the base address with `chat/completions`"@
}

/// The address of the chat completions endpoint of a provider at `api_base`.
pub fn get_chat_url(api_base: &Url) -> (r: Result<Url, Error>)
    ensures
        match endpoint_text(url_text(*api_base), "chat/completions"@) {
            Some(text) => r matches Ok(u) && url_text(u) == text,
            None => r matches Err(e) && e.details matches ErrorDetails::InvalidBaseUrl { message }
                && message@ == chat_url_text(),
        },
{
    match endpoint(api_base, "chat/completions") {
        Some(u) => Ok(u),
        None => Err(
            Error::new(
                ErrorDetails::InvalidBaseUrl {
                    message: String::from_str(
                        "Failed to join the base address with `chat/completions`",
                    ),
                },
            ),
        ),
    }
}

} // verus!
