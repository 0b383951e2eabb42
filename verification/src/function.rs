//! Functions: the named entry points of the gateway, of kind chat or JSON.

use vstd::prelude::*;
use serde_json::Value;
use uuid::Uuid;
use crate::error::{Error, ErrorDetails};
use crate::inference::{
    ChatInferenceResult, InferenceConfig, InferenceParams, InferenceResult, JsonInferenceOutput,
    JsonInferenceResult, Params, last_finish_reason,
};
use crate::json::{json_from_str, json_is_string, json_parse, json_quote, json_string, json_text, text_is_string};
use crate::jsonschema_util::{
    bad_schema_text, schema_verdict, JsonSchemaRef, SchemaVerdict, StaticJSONSchema,
};
use crate::table::NameTable;
use crate::text::{decimal, decimal_string, has_prefix, starts_with, texts};
use crate::tool::{
    assembled, first_missing, lemma_first_missing_step, tool_assembly, DynamicToolParams,
    StaticToolConfig, ToolCallConfig, ToolChoice,
};
use crate::types::{
    ContentBlockOutput, Input, InputMessage, InputMessageContent, ModelInferenceResponseWithMetadata,
    Role, TextKind, Usage,
};
use crate::variant::{JsonMode, VariantInfo};

verus! {

/// A function of the gateway.
#[derive(Debug)]
pub enum FunctionConfig {
    Chat(FunctionConfigChat),
    Json(FunctionConfigJson),
}

/// The kind of a function.
#[derive(Copy, Clone, Debug, PartialEq, Eq, Structural)]
pub enum FunctionConfigType {
    Chat,
    Json,
}

/// A function that answers in content blocks and may call tools.
#[derive(Debug)]
pub struct FunctionConfigChat {
    pub variants: NameTable<VariantInfo>,
    pub system_schema: Option<StaticJSONSchema>,
    pub user_schema: Option<StaticJSONSchema>,
    pub assistant_schema: Option<StaticJSONSchema>,
    /// The names of the tools that the function may call.
    pub tools: Vec<String>,
    pub tool_choice: ToolChoice,
    pub parallel_tool_calls: Option<bool>,
    pub description: Option<String>,
}

/// A function that answers with one JSON value that matches its output schema.
#[derive(Debug)]
pub struct FunctionConfigJson {
    pub variants: NameTable<VariantInfo>,
    pub system_schema: Option<StaticJSONSchema>,
    pub user_schema: Option<StaticJSONSchema>,
    pub assistant_schema: Option<StaticJSONSchema>,
    pub output_schema: StaticJSONSchema,
    /// The tool that stands for the output schema.
    pub implicit_tool_call_config: ToolCallConfig,
    pub description: Option<String>,
}

impl Default for FunctionConfigChat {
    fn default() -> (r: FunctionConfigChat)
        ensures
            r.variants.names().len() == 0,
            r.system_schema is None,
            r.user_schema is None,
            r.assistant_schema is None,
            r.tools@.len() == 0,
            r.tool_choice == ToolChoice::Auto,
            r.parallel_tool_calls is None,
            r.description is None,
    {
        FunctionConfigChat {
            variants: NameTable::new(),
            system_schema: None,
            user_schema: None,
            assistant_schema: None,
            tools: Vec::new(),
            tool_choice: ToolChoice::Auto,
            parallel_tool_calls: None,
            description: None,
        }
    }
}

/// Which of the three schemas a function has.
#[derive(Debug, Clone, Copy, PartialEq, Eq, Structural)]
pub struct TemplateSchemaInfo {
    pub has_system_schema: bool,
    pub has_user_schema: bool,
    pub has_assistant_schema: bool,
}

/// Why an input is turned down.
pub enum Rejection {
    /// There is a system schema and no system value.
    SystemMissing,
    /// A value that is no string stands where no schema is given: in the
    /// system value, or in the message at this place, of this role.
    NonString(Option<(int, Role)>),
    /// A schema of the function is not one.
    BadSchema,
    /// The value with the compact text `data` breaks the schema with the
    /// compact text `schema` in the ways that `messages` tell.
    Violations { messages: Seq<Seq<char>>, data: Seq<char>, schema: Seq<char> },
}

/// The text of the error for a missing system value.
pub open spec fn system_missing_text() -> Seq<char> {
    "`input.system` is empty but a system template is present."@
}

/// The text of the error for a value that is no string where no schema is given.
pub open spec fn non_string_text(index_role: Option<(int, Role)>) -> Seq<char> {
    match index_role {
        Some((index, role)) => "Message at index "@ + decimal(index as nat)
            + " has non-string content but there is no schema given for role "@ + role.name() + "."@,
        None => "Message has non-string content but there is no schema given for role system."@,
    }
}

/// Says that `e` is the error that stands for the rejection `why`.
pub open spec fn rejected(e: Error, why: Rejection) -> bool {
    match why {
        Rejection::SystemMissing => e.is_invalid_message(system_missing_text()),
        Rejection::NonString(index_role) => e.is_invalid_message(non_string_text(index_role)),
        Rejection::BadSchema => e.is_json_schema(bad_schema_text()),
        Rejection::Violations { messages, data, schema } => {
            &&& e.details matches ErrorDetails::JsonSchemaValidation { messages: m, data: d, schema: s }
            &&& texts(m@) == messages
            &&& json_text(*d) == data
            &&& json_text(*s) == schema
        },
    }
}

/// Says that `r` is the result that stands for the outcome `check` of a
/// validation: nothing where nothing is turned down, else the error.
pub open spec fn result_of(r: Result<(), Error>, check: Option<Rejection>) -> bool {
    match check {
        None => r is Ok,
        Some(why) => r matches Err(e) && rejected(e, why),
    }
}

/// The check of one value, given by its compact text: against the schema
/// where there is one, else for being a string.
pub open spec fn single_check(
    content: Seq<char>,
    schema: Option<StaticJSONSchema>,
    index_role: Option<(int, Role)>,
) -> Option<Rejection> {
    match schema {
        Some(s) => match schema_verdict(json_text(s.value), content) {
            SchemaVerdict::Valid => None,
            SchemaVerdict::BadSchema => Some(Rejection::BadSchema),
            SchemaVerdict::Violations(messages) => Some(
                Rejection::Violations { messages, data: content, schema: json_text(s.value) },
            ),
        },
        None => if text_is_string(content) {
            None
        } else {
            Some(Rejection::NonString(index_role))
        },
    }
}

/// The compact text of the value that a text block stands for: a JSON string
/// for plain text, the arguments or the value themselves otherwise.
pub open spec fn content_text(kind: TextKind) -> Seq<char> {
    match kind {
        TextKind::Text { text } => json_quote(text@),
        TextKind::Arguments { arguments } => json_text(arguments),
        TextKind::LegacyValue { value } => json_text(value),
    }
}

/// The check of one block of a message: text blocks are checked, all others pass.
pub open spec fn block_check(
    block: InputMessageContent,
    schema: Option<StaticJSONSchema>,
    index: int,
    role: Role,
) -> Option<Rejection> {
    match block {
        InputMessageContent::Text(kind) => single_check(
            content_text(kind),
            schema,
            Some((index, role)),
        ),
        _ => None,
    }
}

/// The check of the blocks from place `k` on: the first rejection among them.
pub open spec fn blocks_check_from(
    blocks: Seq<InputMessageContent>,
    k: int,
    schema: Option<StaticJSONSchema>,
    index: int,
    role: Role,
) -> Option<Rejection>
    decreases blocks.len() - k,
{
    if k < 0 || k >= blocks.len() {
        None
    } else {
        match block_check(blocks[k], schema, index, role) {
            Some(why) => Some(why),
            None => blocks_check_from(blocks, k + 1, schema, index, role),
        }
    }
}

/// The schema that applies to the messages of a role.
pub open spec fn role_schema(
    role: Role,
    user_schema: Option<StaticJSONSchema>,
    assistant_schema: Option<StaticJSONSchema>,
) -> Option<StaticJSONSchema> {
    match role {
        Role::User => user_schema,
        Role::Assistant => assistant_schema,
    }
}

/// The check of the message at place `index`.
pub open spec fn message_check(
    message: InputMessage,
    index: int,
    user_schema: Option<StaticJSONSchema>,
    assistant_schema: Option<StaticJSONSchema>,
) -> Option<Rejection> {
    blocks_check_from(
        message.content@,
        0,
        role_schema(message.role, user_schema, assistant_schema),
        index,
        message.role,
    )
}

/// The check of the messages from place `k` on: the first rejection among them.
pub open spec fn messages_check_from(
    messages: Seq<InputMessage>,
    k: int,
    user_schema: Option<StaticJSONSchema>,
    assistant_schema: Option<StaticJSONSchema>,
) -> Option<Rejection>
    decreases messages.len() - k,
{
    if k < 0 || k >= messages.len() {
        None
    } else {
        match message_check(messages[k], k, user_schema, assistant_schema) {
            Some(why) => Some(why),
            None => messages_check_from(messages, k + 1, user_schema, assistant_schema),
        }
    }
}

/// The check of the system value: it is checked where there is one; where
/// there is none, there may be no system schema either.
pub open spec fn system_check(system: Option<Value>, system_schema: Option<StaticJSONSchema>) -> Option<
    Rejection,
> {
    match system {
        Some(v) => single_check(json_text(v), system_schema, None),
        None => match system_schema {
            None => None,
            Some(_) => Some(Rejection::SystemMissing),
        },
    }
}

/// The check of an input: that of the system value first, then that of the
/// messages in their order.
pub open spec fn input_check(
    system_schema: Option<StaticJSONSchema>,
    user_schema: Option<StaticJSONSchema>,
    assistant_schema: Option<StaticJSONSchema>,
    input: Input,
) -> Option<Rejection> {
    match system_check(input.system, system_schema) {
        Some(why) => Some(why),
        None => messages_check_from(input.messages@, 0, user_schema, assistant_schema),
    }
}

/// The error for a value that is no string where no schema is given.
pub fn non_string_error(index_role: Option<(usize, Role)>) -> (e: Error)
    ensures
        e.is_invalid_message(
            non_string_text(
                match index_role {
                    Some((index, role)) => Some((index as int, role)),
                    None => None,
                },
            ),
        ),
{
    match index_role {
        Some((index, role)) => {
            let mut message = String::from_str("Message at index ");
            let number = decimal_string(index as u64);
            message.append(number.as_str());
            message.append(" has non-string content but there is no schema given for role ");
            message.append(role.as_str());
            message.append(".");
            Error::new(ErrorDetails::InvalidMessage { message })
        },
        None => Error::new(
            ErrorDetails::InvalidMessage {
                message: String::from_str(
                    "Message has non-string content but there is no schema given for role system.",
                ),
            },
        ),
    }
}

/// The place and role of a message, as a specification speaks of them.
pub open spec fn place_of(index_role: Option<(usize, Role)>) -> Option<(int, Role)> {
    match index_role {
        Some((index, role)) => Some((index as int, role)),
        None => None,
    }
}

/// Validates one value: against the schema where there is one; where there
/// is none, the value must be a string.
pub fn validate_single_message(
    content: &Value,
    schema: &Option<StaticJSONSchema>,
    index_role: Option<(usize, Role)>,
) -> (r: Result<(), Error>)
    ensures
        result_of(r, single_check(json_text(*content), *schema, place_of(index_role))),
{
    match schema {
        Some(schema) => schema.validate(content),
        None => {
            if json_is_string(content) {
                Ok(())
            } else {
                Err(non_string_error(index_role))
            }
        },
    }
}

fn validate_blocks(
    blocks: &Vec<InputMessageContent>,
    schema: &Option<StaticJSONSchema>,
    index: usize,
    role: Role,
) -> (r: Result<(), Error>)
    ensures
        result_of(r, blocks_check_from(blocks@, 0, *schema, index as int, role)),
{
    let mut k: usize = 0;
    while k < blocks.len()
        invariant
            k <= blocks.len(),
            blocks_check_from(blocks@, 0, *schema, index as int, role) == blocks_check_from(
                blocks@,
                k as int,
                *schema,
                index as int,
                role,
            ),
        decreases blocks.len() - k,
    {
        if let InputMessageContent::Text(kind) = &blocks[k] {
            let checked = match kind {
                TextKind::Text { text } => {
                    let content = json_string(text.clone());
                    validate_single_message(&content, schema, Some((index, role)))
                },
                TextKind::Arguments { arguments } => validate_single_message(
                    arguments,
                    schema,
                    Some((index, role)),
                ),
                TextKind::LegacyValue { value } => validate_single_message(
                    value,
                    schema,
                    Some((index, role)),
                ),
            };
            if checked.is_err() {
                return checked;
            }
        }
        k = k + 1;
    }
    Ok(())
}

/// Validates the text of an input: the system value first, then each text
/// block of each message, against the schema of its role. Raw text and
/// blocks that are no text are not looked at.
pub fn validate_all_text_input(
    system_schema: &Option<StaticJSONSchema>,
    user_schema: &Option<StaticJSONSchema>,
    assistant_schema: &Option<StaticJSONSchema>,
    input: &Input,
) -> (r: Result<(), Error>)
    ensures
        result_of(r, input_check(*system_schema, *user_schema, *assistant_schema, *input)),
{
    match &input.system {
        Some(system) => {
            let checked = validate_single_message(system, system_schema, None);
            if checked.is_err() {
                return checked;
            }
        },
        None => {
            if system_schema.is_some() {
                return Err(
                    Error::new(
                        ErrorDetails::InvalidMessage {
                            message: String::from_str(
                                "`input.system` is empty but a system template is present.",
                            ),
                        },
                    ),
                );
            }
        },
    }
    let mut k: usize = 0;
    while k < input.messages.len()
        invariant
            k <= input.messages.len(),
            system_check(input.system, *system_schema) is None,
            messages_check_from(input.messages@, 0, *user_schema, *assistant_schema)
                == messages_check_from(input.messages@, k as int, *user_schema, *assistant_schema),
        decreases input.messages.len() - k,
    {
        let message = &input.messages[k];
        let role = message.role;
        let schema = match role {
            Role::User => user_schema,
            Role::Assistant => assistant_schema,
        };
        let checked = validate_blocks(&message.content, schema, k, role);
        proof {
            assert(message_check(input.messages@[k as int], k as int, *user_schema, *assistant_schema)
                == blocks_check_from(message.content@, 0, *schema, k as int, role));
        }
        if checked.is_err() {
            return checked;
        }
        k = k + 1;
    }
    Ok(())
}

/// An input passes the check exactly where its system value passes and every
/// text block of every message does: where each matches the schema of its
/// role, or is a string where the role has no schema. Blocks that are no
/// text pass in any case.
pub proof fn lemma_input_accepted(
    system_schema: Option<StaticJSONSchema>,
    user_schema: Option<StaticJSONSchema>,
    assistant_schema: Option<StaticJSONSchema>,
    input: Input,
)
    ensures
        input_check(system_schema, user_schema, assistant_schema, input) is None <==> {
            &&& system_check(input.system, system_schema) is None
            &&& forall|i: int, j: int|
                0 <= i < input.messages@.len() && 0 <= j < input.messages@[i].content@.len()
                    ==> (#[trigger] block_check(
                    input.messages@[i].content@[j],
                    role_schema(input.messages@[i].role, user_schema, assistant_schema),
                    i,
                    input.messages@[i].role,
                )) is None
        },
{
    lemma_messages_accepted(input.messages@, 0, user_schema, assistant_schema);
}

/// Validating an input twice comes to the same as validating it once: any
/// two results of one check agree on whether the input passes, and, where
/// it does not, stand for the same rejection.
pub proof fn lemma_validation_repeats(
    first: Result<(), Error>,
    second: Result<(), Error>,
    check: Option<Rejection>,
)
    requires
        result_of(first, check),
        result_of(second, check),
    ensures
        first is Ok <==> second is Ok,
        first is Ok <==> check is None,
        check matches Some(why) ==> rejected(first->Err_0, why) && rejected(second->Err_0, why),
{
}

proof fn lemma_blocks_accepted(
    blocks: Seq<InputMessageContent>,
    k: int,
    schema: Option<StaticJSONSchema>,
    index: int,
    role: Role,
)
    requires
        0 <= k <= blocks.len(),
    ensures
        blocks_check_from(blocks, k, schema, index, role) is None <==> forall|j: int|
            k <= j < blocks.len() ==> (#[trigger] block_check(blocks[j], schema, index, role)) is None,
    decreases blocks.len() - k,
{
    if k < blocks.len() {
        lemma_blocks_accepted(blocks, k + 1, schema, index, role);
    }
}

proof fn lemma_messages_accepted(
    messages: Seq<InputMessage>,
    k: int,
    user_schema: Option<StaticJSONSchema>,
    assistant_schema: Option<StaticJSONSchema>,
)
    requires
        0 <= k <= messages.len(),
    ensures
        messages_check_from(messages, k, user_schema, assistant_schema) is None <==> forall|
            i: int,
            j: int,
        |
            k <= i < messages.len() && 0 <= j < messages[i].content@.len() ==> (#[trigger] block_check(
                messages[i].content@[j],
                role_schema(messages[i].role, user_schema, assistant_schema),
                i,
                messages[i].role,
            )) is None,
    decreases messages.len() - k,
{
    if k < messages.len() {
        lemma_messages_accepted(messages, k + 1, user_schema, assistant_schema);
        lemma_blocks_accepted(
            messages[k].content@,
            0,
            role_schema(messages[k].role, user_schema, assistant_schema),
            k,
            messages[k].role,
        );
    }
}

/// Whether a block can hold the output of a JSON function: text can, and a
/// tool call can, since the output may come as the arguments of the tool
/// that stands for the output schema.
pub open spec fn holds_json(block: ContentBlockOutput) -> bool {
    block is Text || block is ToolCall
}

/// The text that a block holds as JSON output.
pub open spec fn json_payload(block: ContentBlockOutput) -> Seq<char> {
    match block {
        ContentBlockOutput::Text(t) => t.text@,
        ContentBlockOutput::ToolCall(c) => c.arguments@,
        _ => Seq::<char>::empty(),
    }
}

/// `i` is the place of the last block that can hold JSON output.
pub open spec fn is_json_block(blocks: Seq<ContentBlockOutput>, i: int) -> bool {
    &&& 0 <= i < blocks.len()
    &&& holds_json(blocks[i])
    &&& forall|j: int| i < j < blocks.len() ==> !holds_json(#[trigger] blocks[j])
}

/// No block can hold JSON output.
pub open spec fn no_json_block(blocks: Seq<ContentBlockOutput>) -> bool {
    forall|j: int| 0 <= j < blocks.len() ==> !holds_json(#[trigger] blocks[j])
}

/// Finds the output of a JSON function among the blocks of an answer: the
/// last block that is text or a tool call. Returns its text, the other
/// blocks in their order, and its place; or nothing, all blocks and no place
/// where there is no such block.
pub fn get_json_output_from_content_blocks(content_blocks: Vec<ContentBlockOutput>) -> (r: (
    Option<String>,
    Vec<ContentBlockOutput>,
    Option<usize>,
))
    ensures
        match r.2 {
            Some(i) => {
                &&& is_json_block(content_blocks@, i as int)
                &&& r.0 matches Some(raw)
                &&& raw@ == json_payload(content_blocks@[i as int])
                &&& r.1@ == content_blocks@.remove(i as int)
            },
            None => {
                &&& no_json_block(content_blocks@)
                &&& r.0 is None
                &&& r.1@ == content_blocks@
            },
        },
{
    let ghost blocks = content_blocks@;
    let mut rest = content_blocks;
    let mut k: usize = rest.len();
    while k > 0
        invariant
            k <= rest.len(),
            rest@ == blocks,
            blocks == content_blocks@,
            forall|j: int| k <= j < blocks.len() ==> !holds_json(#[trigger] blocks[j]),
        decreases k,
    {
        k = k - 1;
        let found = match &rest[k] {
            ContentBlockOutput::Text(text) => Some(text.text.clone()),
            ContentBlockOutput::ToolCall(tool_call) => Some(tool_call.arguments.clone()),
            _ => None,
        };
        assert(found is Some <==> holds_json(blocks[k as int]));
        if let Some(raw) = found {
            let _ = rest.remove(k);
            return (Some(raw), rest, Some(k));
        }
    }
    (None, rest, None)
}

/// The text of the error for JSON mode `implicit_tool` on a chat function.
pub open spec fn implicit_tool_text() -> Seq<char> {
    "JSON mode `implicit_tool` is not supported for chat functions"@
}

/// The parameter about tools that a request to a JSON function may not set
/// and does: the first of the four, in the order in which they are looked at.
pub open spec fn forbidden_tool_param(params: DynamicToolParams) -> Option<Seq<char>> {
    if params.allowed_tools is Some {
        Some("Cannot pass `allowed_tools` to a JSON function."@)
    } else if params.additional_tools is Some {
        Some("Cannot pass `additional_tools` to a JSON function."@)
    } else if params.tool_choice is Some {
        Some("Cannot pass `tool_choice` to a JSON function"@)
    } else if params.parallel_tool_calls is Some {
        Some("Cannot pass `parallel_tool_calls` to a JSON function"@)
    } else {
        None
    }
}

/// The reserved prefix of variant names.
pub open spec fn reserved_prefix() -> Seq<char> {
    "tensorzero::"@
}

/// The place of the first name from `k` on that starts with the reserved
/// prefix; the number of names where none does.
pub open spec fn first_reserved_from(names: Seq<Seq<char>>, k: int) -> int
    decreases names.len() - k,
{
    if k < 0 || k >= names.len() {
        names.len() as int
    } else if has_prefix(names[k], reserved_prefix()) {
        k
    } else {
        first_reserved_from(names, k + 1)
    }
}

/// The text of the error for a variant name with the reserved prefix.
pub open spec fn reserved_name_text(name: Seq<char>) -> Seq<char> {
    "Variant name cannot start with 'tensorzero::': "@ + name
}

/// The text of the error for a tool of a function that the configuration lacks.
pub open spec fn missing_tool_text(function_name: Seq<char>, tool: Seq<char>) -> Seq<char> {
    "`functions."@ + function_name + ".tools`: tool `"@ + tool + "` is not present in the config"@
}

impl FunctionConfig {
    /// The kind of the function.
    pub open spec fn kind(self) -> FunctionConfigType {
        match self {
            FunctionConfig::Chat(_) => FunctionConfigType::Chat,
            FunctionConfig::Json(_) => FunctionConfigType::Json,
        }
    }

    /// The variants of the function.
    pub open spec fn variant_table(self) -> NameTable<VariantInfo> {
        match self {
            FunctionConfig::Chat(params) => params.variants,
            FunctionConfig::Json(params) => params.variants,
        }
    }

    /// The schema of the system value.
    pub open spec fn system(self) -> Option<StaticJSONSchema> {
        match self {
            FunctionConfig::Chat(params) => params.system_schema,
            FunctionConfig::Json(params) => params.system_schema,
        }
    }

    /// The schema of the user's messages.
    pub open spec fn user(self) -> Option<StaticJSONSchema> {
        match self {
            FunctionConfig::Chat(params) => params.user_schema,
            FunctionConfig::Json(params) => params.user_schema,
        }
    }

    /// The schema of the assistant's messages.
    pub open spec fn assistant(self) -> Option<StaticJSONSchema> {
        match self {
            FunctionConfig::Chat(params) => params.assistant_schema,
            FunctionConfig::Json(params) => params.assistant_schema,
        }
    }

    /// The description of the function.
    pub open spec fn described(self) -> Option<String> {
        match self {
            FunctionConfig::Chat(params) => params.description,
            FunctionConfig::Json(params) => params.description,
        }
    }

    /// The check of an input against the schemas of the function.
    pub open spec fn check(self, input: Input) -> Option<Rejection> {
        input_check(self.system(), self.user(), self.assistant(), input)
    }

    /// The kind of the function.
    pub fn config_type(&self) -> (r: FunctionConfigType)
        ensures
            r == self.kind(),
    {
        match self {
            FunctionConfig::Chat(_) => FunctionConfigType::Chat,
            FunctionConfig::Json(_) => FunctionConfigType::Json,
        }
    }

    /// The name of the table that records the inferences of the function.
    pub fn table_name(&self) -> (r: &str)
        ensures
            r@ == (match self.kind() {
                FunctionConfigType::Chat => "ChatInference"@,
                FunctionConfigType::Json => "JsonInference"@,
            }),
    {
        match self {
            FunctionConfig::Chat(_) => "ChatInference",
            FunctionConfig::Json(_) => "JsonInference",
        }
    }

    /// The variants of the function.
    pub fn variants(&self) -> (r: &NameTable<VariantInfo>)
        ensures
            *r == self.variant_table(),
    {
        match self {
            FunctionConfig::Chat(params) => &params.variants,
            FunctionConfig::Json(params) => &params.variants,
        }
    }

    /// Validates the parameters of a request: a chat function does not take
    /// the JSON mode `implicit_tool`; the input must pass `validate_input`.
    pub fn validate_inference_params(&self, params: &Params) -> (r: Result<(), Error>)
        ensures
            if self.kind() == FunctionConfigType::Chat && params.params.chat_completion.json_mode
                == Some(JsonMode::ImplicitTool) {
                r matches Err(e) && e.is_invalid_request(implicit_tool_text())
            } else {
                result_of(r, self.check(params.input))
            },
    {
        if let FunctionConfig::Chat(_) = self {
            if let Some(JsonMode::ImplicitTool) = &params.params.chat_completion.json_mode {
                return Err(
                    Error::new(
                        ErrorDetails::InvalidRequest {
                            message: String::from_str(
                                "JSON mode `implicit_tool` is not supported for chat functions",
                            ),
                        },
                    ),
                );
            }
        }
        self.validate_input(&params.input)
    }

    /// Validates an input against the schemas of the function: the system
    /// value against the system schema, each text block of each message
    /// against the schema of the message's role. Where a schema is not set,
    /// the value must be a string. Blocks that are no text, and raw text, pass.
    pub fn validate_input(&self, input: &Input) -> (r: Result<(), Error>)
        ensures
            result_of(r, self.check(*input)),
    {
        match self {
            FunctionConfig::Chat(params) => validate_all_text_input(
                &params.system_schema,
                &params.user_schema,
                &params.assistant_schema,
                input,
            ),
            FunctionConfig::Json(params) => validate_all_text_input(
                &params.system_schema,
                &params.user_schema,
                &params.assistant_schema,
                input,
            ),
        }
    }

    /// The tools of an inference of the function. A chat function has its
    /// own tools and those of the request. A JSON function has none, and a
    /// request to one may set no parameter about tools.
    pub fn prepare_tool_config(
        &self,
        dynamic_tool_params: DynamicToolParams,
        static_tools: &NameTable<StaticToolConfig>,
    ) -> (r: Result<Option<ToolCallConfig>, Error>)
        ensures
            match *self {
                FunctionConfig::Chat(params) => assembled(
                    r,
                    tool_assembly(
                        texts(params.tools@),
                        params.tool_choice,
                        params.parallel_tool_calls,
                        *static_tools,
                        dynamic_tool_params,
                    ),
                ),
                FunctionConfig::Json(_) => match forbidden_tool_param(dynamic_tool_params) {
                    Some(text) => r matches Err(e) && e.is_invalid_request(text),
                    None => r matches Ok(None),
                },
            },
    {
        match self {
            FunctionConfig::Chat(params) => ToolCallConfig::new(
                &params.tools,
                &params.tool_choice,
                params.parallel_tool_calls,
                static_tools,
                dynamic_tool_params,
            ),
            FunctionConfig::Json(_) => {
                if dynamic_tool_params.allowed_tools.is_some() {
                    return Err(
                        Error::new(
                            ErrorDetails::InvalidRequest {
                                message: String::from_str(
                                    "Cannot pass `allowed_tools` to a JSON function.",
                                ),
                            },
                        ),
                    );
                }
                if dynamic_tool_params.additional_tools.is_some() {
                    return Err(
                        Error::new(
                            ErrorDetails::InvalidRequest {
                                message: String::from_str(
                                    "Cannot pass `additional_tools` to a JSON function.",
                                ),
                            },
                        ),
                    );
                }
                if dynamic_tool_params.tool_choice.is_some() {
                    return Err(
                        Error::new(
                            ErrorDetails::InvalidRequest {
                                message: String::from_str(
                                    "Cannot pass `tool_choice` to a JSON function",
                                ),
                            },
                        ),
                    );
                }
                if dynamic_tool_params.parallel_tool_calls.is_some() {
                    return Err(
                        Error::new(
                            ErrorDetails::InvalidRequest {
                                message: String::from_str(
                                    "Cannot pass `parallel_tool_calls` to a JSON function",
                                ),
                            },
                        ),
                    );
                }
                Ok(None)
            },
        }
    }

    /// Which of the three schemas the function has.
    pub fn template_schema_info(&self) -> (r: TemplateSchemaInfo)
        ensures
            r.has_system_schema <==> self.system() is Some,
            r.has_user_schema <==> self.user() is Some,
            r.has_assistant_schema <==> self.assistant() is Some,
    {
        TemplateSchemaInfo {
            has_system_schema: self.system_schema().is_some(),
            has_user_schema: self.user_schema().is_some(),
            has_assistant_schema: self.assistant_schema().is_some(),
        }
    }

    /// The schema of the system value.
    pub fn system_schema(&self) -> (r: Option<&StaticJSONSchema>)
        ensures
            match self.system() {
                Some(schema) => r matches Some(s) && *s == schema,
                None => r is None,
            },
    {
        match self {
            FunctionConfig::Chat(params) => params.system_schema.as_ref(),
            FunctionConfig::Json(params) => params.system_schema.as_ref(),
        }
    }

    /// The schema of the user's messages.
    pub fn user_schema(&self) -> (r: Option<&StaticJSONSchema>)
        ensures
            match self.user() {
                Some(schema) => r matches Some(s) && *s == schema,
                None => r is None,
            },
    {
        match self {
            FunctionConfig::Chat(params) => params.user_schema.as_ref(),
            FunctionConfig::Json(params) => params.user_schema.as_ref(),
        }
    }

    /// The schema of the assistant's messages.
    pub fn assistant_schema(&self) -> (r: Option<&StaticJSONSchema>)
        ensures
            match self.assistant() {
                Some(schema) => r matches Some(s) && *s == schema,
                None => r is None,
            },
    {
        match self {
            FunctionConfig::Chat(params) => params.assistant_schema.as_ref(),
            FunctionConfig::Json(params) => params.assistant_schema.as_ref(),
        }
    }

    /// The description of the function.
    pub fn description(&self) -> (r: Option<&String>)
        ensures
            match self.described() {
                Some(description) => r matches Some(d) && *d == description,
                None => r is None,
            },
    {
        match self {
            FunctionConfig::Chat(params) => params.description.as_ref(),
            FunctionConfig::Json(params) => params.description.as_ref(),
        }
    }

    /// Validates the function as part of a configuration: no variant name
    /// starts with the reserved prefix, and each tool of a chat function is
    /// one of the configuration's. The variants are looked at first, in
    /// their order, then the tools, in theirs; the first fault is reported.
    #[verifier::loop_isolation(false)]
    pub fn validate(&self, static_tools: &NameTable<StaticToolConfig>, function_name: &str) -> (r: Result<
        (),
        Error,
    >)
        ensures
            ({
                let names = self.variant_table().names();
                let reserved = first_reserved_from(names, 0);
                if reserved < names.len() {
                    r matches Err(e) && e.is_config(reserved_name_text(names[reserved]))
                } else {
                    match *self {
                        FunctionConfig::Chat(params) => {
                            let missing = first_missing(*static_tools, texts(params.tools@));
                            if missing < params.tools@.len() {
                                r matches Err(e) && e.is_config(
                                    missing_tool_text(function_name@, params.tools@[missing]@),
                                )
                            } else {
                                r is Ok
                            }
                        },
                        FunctionConfig::Json(_) => r is Ok,
                    }
                }
            }),
    {
        let variants = self.variants();
        let ghost names = variants.names();
        let mut k: usize = 0;
        while k < variants.len()
            invariant
                k <= variants.names().len(),
                names == variants.names(),
                first_reserved_from(names, 0) == first_reserved_from(names, k as int),
            decreases variants.names().len() - k,
        {
            let name = variants.name_at(k);
            if starts_with(name.as_str(), "tensorzero::") {
                assert(first_reserved_from(names, k as int) == k);
                let mut message = String::from_str("Variant name cannot start with 'tensorzero::': ");
                message.append(name.as_str());
                return Err(Error::new(ErrorDetails::Config { message }));
            }
            k = k + 1;
        }
        match self {
            FunctionConfig::Chat(params) => {
                let ghost tools = texts(params.tools@);
                let mut i: usize = 0;
                while i < params.tools.len()
                    invariant
                        i <= params.tools.len(),
                        tools == texts(params.tools@),
                        forall|j: int| 0 <= j < i ==> static_tools.contains(#[trigger] tools[j]),
                    decreases params.tools.len() - i,
                {
                    let tool = params.tools[i].as_str();
                    assert(tools[i as int] == tool@);
                    if !static_tools.contains_key(tool) {
                        proof {
                            lemma_first_missing_step(*static_tools, tools, i as int);
                        }
                        let mut message = String::from_str("`functions.");
                        message.append(function_name);
                        message.append(".tools`: tool `");
                        message.append(tool);
                        message.append("` is not present in the config");
                        return Err(Error::new(ErrorDetails::Config { message }));
                    }
                    i = i + 1;
                }
                proof {
                    lemma_first_missing_step(*static_tools, tools, tools.len() as int);
                }
                Ok(())
            },
            FunctionConfig::Json(_) => Ok(()),
        }
    }

    /// Shapes the answer of a model into the result of an inference.
    ///
    /// A chat function mirrors the blocks of the answer. A JSON function
    /// takes its output from the last block that is text or a tool call: the
    /// text stays as it is, and the value read from it stays where it is
    /// JSON that matches the output schema, that of the request where there
    /// is one, else that of the function.
    pub fn prepare_response(
        &self,
        inference_id: Uuid,
        content_blocks: Vec<ContentBlockOutput>,
        usage: Usage,
        model_inference_results: Vec<ModelInferenceResponseWithMetadata>,
        inference_config: &InferenceConfig,
        inference_params: InferenceParams,
        original_response: Option<String>,
        created: u64,
    ) -> (r: Result<InferenceResult, Error>)
        ensures
            match *self {
                FunctionConfig::Chat(_) => r matches Ok(InferenceResult::Chat(chat)) && chat == (
                ChatInferenceResult {
                    inference_id,
                    created,
                    content: content_blocks,
                    usage,
                    model_inference_results,
                    inference_params,
                    original_response,
                    finish_reason: last_finish_reason(model_inference_results@),
                }),
                FunctionConfig::Json(params) => {
                    &&& r matches Ok(InferenceResult::Json(json))
                    &&& json.inference_id == inference_id
                    &&& json.created == created
                    &&& json.usage == usage
                    &&& json.model_inference_results == model_inference_results
                    &&& json.inference_params == inference_params
                    &&& json.original_response == original_response
                    &&& json.finish_reason == last_finish_reason(model_inference_results@)
                    &&& json.output_schema == output_schema_of(params, *inference_config)
                    &&& match json.json_block_index {
                        Some(i) => {
                            &&& is_json_block(content_blocks@, i as int)
                            &&& json.output.raw matches Some(raw)
                            &&& raw@ == json_payload(content_blocks@[i as int])
                            &&& json.auxiliary_content@ == content_blocks@.remove(i as int)
                            &&& parsed_as(
                                json.output.parsed,
                                raw@,
                                json_text(output_schema_of(params, *inference_config)),
                            )
                        },
                        None => {
                            &&& no_json_block(content_blocks@)
                            &&& json.output.raw is None
                            &&& json.output.parsed is None
                            &&& json.auxiliary_content@ == content_blocks@
                        },
                    }
                },
            },
    {
        match self {
            FunctionConfig::Chat(_) => Ok(
                InferenceResult::Chat(
                    ChatInferenceResult::new(
                        inference_id,
                        content_blocks,
                        usage,
                        model_inference_results,
                        inference_params,
                        original_response,
                        created,
                    ),
                ),
            ),
            FunctionConfig::Json(params) => {
                let (raw_output, auxiliary_content, json_block_index) =
                    get_json_output_from_content_blocks(content_blocks);
                let parsed_output: Option<Value> = match &raw_output {
                    Some(raw) => json_from_str(raw.as_str()),
                    None => None,
                };
                let output_schema = match inference_config.dynamic_output_schema {
                    Some(schema) => JsonSchemaRef::Dynamic(schema),
                    None => JsonSchemaRef::Static(&params.output_schema),
                };
                let valid = match &parsed_output {
                    Some(parsed) => output_schema.validate(parsed).is_ok(),
                    None => false,
                };
                let output = JsonInferenceOutput::from_parts(raw_output, parsed_output, valid);
                Ok(
                    InferenceResult::Json(
                        JsonInferenceResult::new(
                            inference_id,
                            output.raw,
                            output.parsed,
                            json_block_index,
                            auxiliary_content,
                            usage,
                            model_inference_results,
                            output_schema.value().clone(),
                            inference_params,
                            original_response,
                            created,
                        ),
                    ),
                )
            },
        }
    }
}

/// The output schema of an inference of a JSON function: that of the
/// request where there is one, else that of the function.
pub open spec fn output_schema_of(params: FunctionConfigJson, config: InferenceConfig) -> Value {
    match config.dynamic_output_schema {
        Some(schema) => schema.value,
        None => params.output_schema.value,
    }
}

/// Says that `parsed` is what reading the text `raw` as JSON and holding it
/// to the schema with the compact text `schema` gives: the value read, where
/// `raw` is JSON and the schema accepts it; nothing otherwise.
pub open spec fn parsed_as(parsed: Option<Value>, raw: Seq<char>, schema: Seq<char>) -> bool {
    match json_parse(raw) {
        Some(text) => if schema_verdict(schema, text) is Valid {
            parsed matches Some(v) && json_text(v) == text
        } else {
            parsed is None
        },
        None => parsed is None,
    }
}

} // verus!
