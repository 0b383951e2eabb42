//! The input of an inference as a client holds it, and its adjustment for a
//! gateway that is older than the client.

use vstd::prelude::*;
use serde_json::Value;
use crate::client_error::TensorZeroError;
use crate::json::{json_is_object, json_quote, json_string, json_text, json_to_string, text_is_object};
use crate::numeral::{version_rank, Rank, VersionFault};
use crate::types::{File, Role, TextKind, Thought, ToolResult};
use crate::version::{min_version, supports_tool_call_arguments_object, version_fault_text};

verus! {

/// A call of a tool in the input of a client: the arguments may be a JSON
/// value of any kind.
#[derive(Debug, Clone, PartialEq)]
pub struct ToolCallInput {
    pub name: Option<String>,
    pub arguments: Option<Value>,
    pub raw_arguments: Option<String>,
    pub id: String,
    pub raw_name: Option<String>,
}

/// One block of the content of a client's message.
#[derive(Debug, Clone, PartialEq)]
pub enum ClientInputMessageContent {
    Text(TextKind),
    ToolCall(ToolCallInput),
    ToolResult(ToolResult),
    RawText { value: String },
    Thought(Thought),
    File(File),
}

/// A message of a client's input.
#[derive(Debug, Clone, PartialEq)]
pub struct ClientInputMessage {
    pub role: Role,
    pub content: Vec<ClientInputMessageContent>,
}

/// The input of an inference as a client holds it.
#[derive(Debug, Clone, PartialEq)]
pub struct ClientInput {
    pub system: Option<Value>,
    pub messages: Vec<ClientInputMessage>,
}

/// Whether the input goes out adjusted to a gateway of this version: it
/// does where the version is not known, since old gateways do not tell
/// theirs, and where it is before the minimum version.
pub open spec fn adjusts(gateway_version: Option<Seq<char>>) -> Result<bool, VersionFault> {
    match gateway_version {
        None => Ok(true),
        Some(v) => match version_rank(v, min_version()) {
            Ok(rank) => Ok(rank == Rank::Less),
            Err(fault) => Err(fault),
        },
    }
}

/// Says that `after` is the tool call `before`, adjusted: arguments that
/// are a JSON object have become the JSON string that holds their compact
/// text; all else is as it was.
pub open spec fn call_adjusted(before: ToolCallInput, after: ToolCallInput) -> bool {
    if before.arguments matches Some(args) && text_is_object(json_text(args)) {
        &&& after.name == before.name
        &&& after.raw_arguments == before.raw_arguments
        &&& after.id == before.id
        &&& after.raw_name == before.raw_name
        &&& after.arguments matches Some(a)
        &&& json_text(a) == json_quote(json_text(before.arguments->Some_0))
    } else {
        after == before
    }
}

/// Says that `after` is the block `before`, adjusted: a tool call is
/// adjusted, any other block is as it was.
pub open spec fn content_adjusted(
    before: ClientInputMessageContent,
    after: ClientInputMessageContent,
) -> bool {
    match before {
        ClientInputMessageContent::ToolCall(call) => after matches ClientInputMessageContent::ToolCall(
            adjusted,
        ) && call_adjusted(call, adjusted),
        _ => after == before,
    }
}

/// Says that `after` is the message `before` with each block adjusted.
pub open spec fn message_adjusted(before: ClientInputMessage, after: ClientInputMessage) -> bool {
    &&& after.role == before.role
    &&& after.content@.len() == before.content@.len()
    &&& forall|j: int|
        0 <= j < before.content@.len() ==> content_adjusted(
            #[trigger] before.content@[j],
            after.content@[j],
        )
}

/// Says that `after` is the input `before` with each message adjusted.
pub open spec fn input_adjusted(before: ClientInput, after: ClientInput) -> bool {
    &&& after.system == before.system
    &&& after.messages@.len() == before.messages@.len()
    &&& forall|i: int|
        0 <= i < before.messages@.len() ==> message_adjusted(
            #[trigger] before.messages@[i],
            after.messages@[i],
        )
}

/// Adjusts a tool call for an older gateway.
pub fn adjust_tool_call(call: ToolCallInput) -> (r: ToolCallInput)
    ensures
        call_adjusted(call, r),
{
    let ToolCallInput { name, arguments, raw_arguments, id, raw_name } = call;
    let arguments = match arguments {
        Some(args) => {
            if json_is_object(&args) {
                Some(json_string(json_to_string(&args)))
            } else {
                Some(args)
            }
        },
        None => None,
    };
    ToolCallInput { name, arguments, raw_arguments, id, raw_name }
}

fn adjust_content(content: Vec<ClientInputMessageContent>) -> (r: Vec<ClientInputMessageContent>)
    ensures
        r@.len() == content@.len(),
        forall|j: int| 0 <= j < content@.len() ==> content_adjusted(#[trigger] content@[j], r@[j]),
{
    let mut out: Vec<ClientInputMessageContent> = Vec::new();
    for block in it: content
        invariant
            it.seq() == content@,
            out@.len() == it.index(),
            forall|j: int| 0 <= j < out@.len() ==> content_adjusted(#[trigger] content@[j], out@[j]),
    {
        let adjusted = match block {
            ClientInputMessageContent::ToolCall(call) => ClientInputMessageContent::ToolCall(
                adjust_tool_call(call),
            ),
            other => other,
        };
        out.push(adjusted);
    }
    out
}

/// Adjusts the input for the gateway that it goes to.
///
/// For a gateway of the minimum version or later, nothing changes. For an
/// older one, and where the version is not known, the arguments of each tool
/// call that are a JSON object become the JSON string of their compact text;
/// arguments of any other kind stay. A version that cannot be read gives an
/// error and leaves the input as it was.
pub fn try_adjust_tool_call_arguments(gateway_version: Option<&str>, input: &mut ClientInput) -> (r:
    Result<(), TensorZeroError>)
    ensures
        match adjusts(
            match gateway_version {
                Some(v) => Some(v@),
                None => None,
            },
        ) {
            Ok(true) => r is Ok && input_adjusted(*old(input), *final(input)),
            Ok(false) => r is Ok && *final(input) == *old(input),
            Err(fault) => {
                &&& r matches Err(e)
                &&& e.is_internal(
                    version_fault_text(fault, gateway_version->Some_0@, min_version()),
                )
                &&& *final(input) == *old(input)
            },
        },
{
    if let Some(gateway_version) = gateway_version {
        match supports_tool_call_arguments_object(gateway_version) {
            Ok(true) => {
                return Ok(());
            },
            Ok(false) => {},
            Err(e) => {
                return Err(e);
            },
        }
    }
    let mut messages: Vec<ClientInputMessage> = Vec::new();
    std::mem::swap(&mut messages, &mut input.messages);
    let mut out: Vec<ClientInputMessage> = Vec::new();
    for message in it: messages
        invariant
            it.seq() == old(input).messages@,
            out@.len() == it.index(),
            forall|i: int|
                0 <= i < out@.len() ==> message_adjusted(
                    #[trigger] old(input).messages@[i],
                    out@[i],
                ),
    {
        let ClientInputMessage { role, content } = message;
        out.push(ClientInputMessage { role, content: adjust_content(content) });
    }
    input.messages = out;
    Ok(())
}

} // verus!
