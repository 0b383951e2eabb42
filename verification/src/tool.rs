//! Tools: what a configuration declares, what a request adds, and what an
//! inference may call in the end.

use vstd::prelude::*;
use serde_json::Value;
use crate::error::{Error, ErrorDetails};
use crate::jsonschema_util::{DynamicJSONSchema, StaticJSONSchema};
use crate::table::NameTable;
use crate::text::{str_eq, texts};

verus! {

/// A tool that a request brings along.
#[derive(Debug, Clone, PartialEq)]
pub struct Tool {
    pub description: String,
    pub parameters: Value,
    pub name: String,
    pub strict: bool,
}

/// Which tool, if any, a model is to call.
#[derive(Debug, Clone, PartialEq)]
pub enum ToolChoice {
    /// No tool is to be called.
    Never,
    Auto,
    Required,
    /// The tool of this name.
    Specific(String),
}

impl Default for ToolChoice {
    fn default() -> (r: ToolChoice)
        ensures
            r == ToolChoice::Auto,
    {
        ToolChoice::Auto
    }
}

impl ToolChoice {
    /// A copy of this choice.
    pub fn copy(&self) -> (r: ToolChoice)
        ensures
            r == *self,
    {
        match self {
            ToolChoice::Never => ToolChoice::Never,
            ToolChoice::Auto => ToolChoice::Auto,
            ToolChoice::Required => ToolChoice::Required,
            ToolChoice::Specific(name) => ToolChoice::Specific(name.clone()),
        }
    }
}

/// What a request says about tools.
#[derive(Debug, Clone, PartialEq)]
pub struct DynamicToolParams {
    pub allowed_tools: Option<Vec<String>>,
    pub additional_tools: Option<Vec<Tool>>,
    pub tool_choice: Option<ToolChoice>,
    pub parallel_tool_calls: Option<bool>,
}

impl Default for DynamicToolParams {
    fn default() -> (r: DynamicToolParams)
        ensures
            r == (DynamicToolParams {
                allowed_tools: None,
                additional_tools: None,
                tool_choice: None,
                parallel_tool_calls: None,
            }),
    {
        DynamicToolParams {
            allowed_tools: None,
            additional_tools: None,
            tool_choice: None,
            parallel_tool_calls: None,
        }
    }
}

/// A tool of the configuration.
#[derive(Debug, Clone, PartialEq)]
pub struct StaticToolConfig {
    pub description: String,
    pub parameters: StaticJSONSchema,
    pub name: String,
    pub strict: bool,
}

impl StaticToolConfig {
    /// A copy of this tool.
    pub fn copy(&self) -> (r: StaticToolConfig)
        ensures
            r == *self,
    {
        StaticToolConfig {
            description: self.description.clone(),
            parameters: StaticJSONSchema { value: self.parameters.value.clone() },
            name: self.name.clone(),
            strict: self.strict,
        }
    }
}

/// A tool that came with a request.
#[derive(Debug, Clone, PartialEq)]
pub struct DynamicToolConfig {
    pub description: String,
    pub parameters: DynamicJSONSchema,
    pub name: String,
    pub strict: bool,
}

/// The tool that stands for the output schema of a JSON function.
#[derive(Debug, Clone, PartialEq)]
pub struct ImplicitToolConfig {
    pub parameters: StaticJSONSchema,
}

/// A tool that an inference may call.
#[derive(Debug, Clone, PartialEq)]
pub enum ToolConfig {
    Static(StaticToolConfig),
    Dynamic(DynamicToolConfig),
    Implicit(ImplicitToolConfig),
}

/// The name of the tool that stands for an output schema.
pub open spec fn implicit_tool_name() -> Seq<char> {
    "respond"@
}

/// The description of the tool that stands for an output schema.
pub open spec fn implicit_tool_description() -> Seq<char> {
    "Respond to the user using the output schema provided."@
}

impl ToolConfig {
    /// The name of the tool.
    pub open spec fn name_text(self) -> Seq<char> {
        match self {
            ToolConfig::Static(c) => c.name@,
            ToolConfig::Dynamic(c) => c.name@,
            ToolConfig::Implicit(_) => implicit_tool_name(),
        }
    }

    /// The description of the tool.
    pub open spec fn description_text(self) -> Seq<char> {
        match self {
            ToolConfig::Static(c) => c.description@,
            ToolConfig::Dynamic(c) => c.description@,
            ToolConfig::Implicit(_) => implicit_tool_description(),
        }
    }

    /// The schema of the tool's parameters.
    pub open spec fn parameters_value(self) -> Value {
        match self {
            ToolConfig::Static(c) => c.parameters.value,
            ToolConfig::Dynamic(c) => c.parameters.value,
            ToolConfig::Implicit(c) => c.parameters.value,
        }
    }

    /// Whether the provider is to hold the model to the schema.
    pub open spec fn is_strict(self) -> bool {
        match self {
            ToolConfig::Static(c) => c.strict,
            ToolConfig::Dynamic(c) => c.strict,
            ToolConfig::Implicit(_) => false,
        }
    }

    /// The name of the tool.
    pub fn name(&self) -> (r: &str)
        ensures
            r@ == self.name_text(),
    {
        match self {
            ToolConfig::Static(c) => c.name.as_str(),
            ToolConfig::Dynamic(c) => c.name.as_str(),
            ToolConfig::Implicit(_) => "respond",
        }
    }

    /// The description of the tool.
    pub fn description(&self) -> (r: &str)
        ensures
            r@ == self.description_text(),
    {
        match self {
            ToolConfig::Static(c) => c.description.as_str(),
            ToolConfig::Dynamic(c) => c.description.as_str(),
            ToolConfig::Implicit(_) => "Respond to the user using the output schema provided.",
        }
    }

    /// The schema of the tool's parameters.
    pub fn parameters(&self) -> (r: &Value)
        ensures
            *r == self.parameters_value(),
    {
        match self {
            ToolConfig::Static(c) => &c.parameters.value,
            ToolConfig::Dynamic(c) => &c.parameters.value,
            ToolConfig::Implicit(c) => &c.parameters.value,
        }
    }

    /// Whether the provider is to hold the model to the schema.
    pub fn strict(&self) -> (r: bool)
        ensures
            r == self.is_strict(),
    {
        match self {
            ToolConfig::Static(c) => c.strict,
            ToolConfig::Dynamic(c) => c.strict,
            ToolConfig::Implicit(_) => false,
        }
    }
}

/// The tools of one inference, with the choice among them.
#[derive(Debug, Clone, PartialEq)]
pub struct ToolCallConfig {
    pub tools_available: Vec<ToolConfig>,
    pub tool_choice: ToolChoice,
    pub parallel_tool_calls: Option<bool>,
}

/// The tool that a request's `tool` becomes.
pub open spec fn dynamic_tool(tool: Tool) -> ToolConfig {
    ToolConfig::Dynamic(
        DynamicToolConfig {
            description: tool.description,
            parameters: DynamicJSONSchema { value: tool.parameters },
            name: tool.name,
            strict: tool.strict,
        },
    )
}

/// The place of the first of `names` that `static_tools` does not have; the
/// number of names where it has them all.
pub open spec fn first_missing(static_tools: NameTable<StaticToolConfig>, names: Seq<Seq<char>>) -> int
    decreases names.len(),
{
    if names.len() == 0 {
        0
    } else if !static_tools.contains(names[0]) {
        0
    } else {
        1 + first_missing(static_tools, names.drop_first())
    }
}

/// The tools of the configuration under `names`, in that order.
pub open spec fn static_tools_of(static_tools: NameTable<StaticToolConfig>, names: Seq<Seq<char>>) -> Seq<
    ToolConfig,
> {
    Seq::new(names.len(), |i: int| ToolConfig::Static(static_tools.lookup(names[i])->Some_0))
}

/// The tools that a request brings, in their order.
pub open spec fn dynamic_tools_of(additional: Option<Vec<Tool>>) -> Seq<ToolConfig> {
    match additional {
        Some(tools) => Seq::new(tools@.len(), |i: int| dynamic_tool(tools@[i])),
        None => Seq::<ToolConfig>::empty(),
    }
}

/// Whether the list `allowed`, where there is one, lets the tool `name` through.
pub open spec fn lets_through(allowed: Option<Vec<String>>, name: Seq<char>) -> bool {
    match allowed {
        Some(names) => texts(names@).contains(name),
        None => true,
    }
}

/// The tools of `tools` that `allowed` lets through, in their order.
pub open spec fn allowed_of(tools: Seq<ToolConfig>, allowed: Option<Vec<String>>) -> Seq<ToolConfig> {
    tools.filter(|t: ToolConfig| lets_through(allowed, t.name_text()))
}

/// The tools that an inference may call: those of the function and those of
/// the request, as far as the request's list of allowed tools lets them through.
pub open spec fn available_tools(
    function_tools: Seq<Seq<char>>,
    static_tools: NameTable<StaticToolConfig>,
    params: DynamicToolParams,
) -> Seq<ToolConfig> {
    allowed_of(
        static_tools_of(static_tools, function_tools) + dynamic_tools_of(params.additional_tools),
        params.allowed_tools,
    )
}

/// The choice of tool for an inference: the request's, else the function's.
pub open spec fn resolved_choice(function_choice: ToolChoice, params: DynamicToolParams) -> ToolChoice {
    match params.tool_choice {
        Some(c) => c,
        None => function_choice,
    }
}

/// The setting for parallel calls: the request's, else the function's.
pub open spec fn resolved_parallel(function_parallel: Option<bool>, params: DynamicToolParams) -> Option<
    bool,
> {
    match params.parallel_tool_calls {
        Some(p) => Some(p),
        None => function_parallel,
    }
}

/// Whether one of `tools` has the name `name`.
pub open spec fn has_tool(tools: Seq<ToolConfig>, name: Seq<char>) -> bool {
    exists|i: int| 0 <= i < tools.len() && (#[trigger] tools[i]).name_text() == name
}

/// What the assembly of the tools of an inference comes to.
pub enum ToolAssembly {
    /// The function names a tool that the configuration does not have.
    UnknownTool(Seq<char>),
    /// The choice names a tool that is not among those available.
    UnavailableChoice(Seq<char>),
    /// There is no tool.
    NoTools,
    /// These tools, with this choice and this setting for parallel calls.
    Tools(Seq<ToolConfig>, ToolChoice, Option<bool>),
}

/// The tools of an inference of a function with the tools `function_tools`.
pub open spec fn tool_assembly(
    function_tools: Seq<Seq<char>>,
    function_choice: ToolChoice,
    function_parallel: Option<bool>,
    static_tools: NameTable<StaticToolConfig>,
    params: DynamicToolParams,
) -> ToolAssembly {
    let missing = first_missing(static_tools, function_tools);
    let tools = available_tools(function_tools, static_tools, params);
    let choice = resolved_choice(function_choice, params);
    if missing < function_tools.len() {
        ToolAssembly::UnknownTool(function_tools[missing])
    } else if choice matches ToolChoice::Specific(name) && !has_tool(tools, name@) {
        ToolAssembly::UnavailableChoice(choice->Specific_0@)
    } else if tools.len() == 0 {
        ToolAssembly::NoTools
    } else {
        ToolAssembly::Tools(tools, choice, resolved_parallel(function_parallel, params))
    }
}

/// The text of the error for a tool that the configuration does not have.
pub open spec fn unknown_tool_text(name: Seq<char>) -> Seq<char> {
    "Tool `"@ + name + "` is not present in the config"@
}

/// Says that `r` is what the assembly `a` returns.
pub open spec fn assembled(r: Result<Option<ToolCallConfig>, Error>, a: ToolAssembly) -> bool {
    match a {
        ToolAssembly::UnknownTool(name) => r matches Err(e) && e.is_config(unknown_tool_text(name)),
        ToolAssembly::UnavailableChoice(name) => r matches Err(e) && e.is_tool_not_found(name),
        ToolAssembly::NoTools => r matches Ok(None),
        ToolAssembly::Tools(tools, choice, parallel) => r matches Ok(Some(c)) && c.tools_available@
            == tools && c.tool_choice == choice && c.parallel_tool_calls == parallel,
    }
}

fn name_in(names: &Vec<String>, name: &str) -> (r: bool)
    ensures
        r == texts(names@).contains(name@),
{
    let mut i: usize = 0;
    while i < names.len()
        invariant
            i <= names.len(),
            forall|j: int| 0 <= j < i ==> texts(names@)[j] != name@,
        decreases names.len() - i,
    {
        if str_eq(names[i].as_str(), name) {
            assert(texts(names@)[i as int] == name@);
            return true;
        }
        i = i + 1;
    }
    false
}

fn passes(allowed: &Option<Vec<String>>, name: &str) -> (r: bool)
    ensures
        r == lets_through(*allowed, name@),
{
    match allowed {
        Some(names) => name_in(names, name),
        None => true,
    }
}

fn tool_named(tools: &Vec<ToolConfig>, name: &str) -> (r: bool)
    ensures
        r == has_tool(tools@, name@),
{
    let mut i: usize = 0;
    while i < tools.len()
        invariant
            i <= tools.len(),
            forall|j: int| 0 <= j < i ==> (#[trigger] tools@[j]).name_text() != name@,
        decreases tools.len() - i,
    {
        if str_eq(tools[i].name(), name) {
            return true;
        }
        i = i + 1;
    }
    false
}

/// The first of `names` that the table lacks is at place `k` where all names
/// before `k` are in the table and the one at `k` is not; there is none where
/// all names are in the table.
pub proof fn lemma_first_missing_step(static_tools: NameTable<StaticToolConfig>, names: Seq<Seq<char>>, k: int)
    requires
        0 <= k <= names.len(),
        forall|j: int| 0 <= j < k ==> static_tools.contains(#[trigger] names[j]),
    ensures
        k < names.len() && !static_tools.contains(names[k]) ==> first_missing(static_tools, names)
            == k,
        k == names.len() ==> first_missing(static_tools, names) == k,
        first_missing(static_tools, names) >= k,
    decreases names.len(),
{
    if names.len() == 0 {
    } else if k == 0 {
        if static_tools.contains(names[0]) {
            lemma_first_missing_step(static_tools, names.drop_first(), 0);
        }
    } else {
        assert(static_tools.contains(names[0]));
        assert forall|j: int| 0 <= j < k - 1 implies static_tools.contains(
            #[trigger] names.drop_first()[j],
        ) by {
            assert(names.drop_first()[j] == names[j + 1]);
        }
        lemma_first_missing_step(static_tools, names.drop_first(), k - 1);
        if k < names.len() {
            assert(names.drop_first()[k - 1] == names[k]);
        }
    }
}

impl ToolCallConfig {
    /// The tools of an inference of a function: the function's tools, looked
    /// up in the configuration, and the request's additional tools, as far
    /// as the request's list of allowed tools lets them through. The
    /// request's choice and setting for parallel calls go before the
    /// function's. A function's tool that the configuration lacks is a
    /// `Config` error; a choice of a tool that is not available is a
    /// `ToolNotFound` error; no tool at all gives `None`.
    pub fn new(
        function_tools: &Vec<String>,
        function_tool_choice: &ToolChoice,
        function_parallel_tool_calls: Option<bool>,
        static_tools: &NameTable<StaticToolConfig>,
        dynamic_tool_params: DynamicToolParams,
    ) -> (r: Result<Option<ToolCallConfig>, Error>)
        ensures
            assembled(
                r,
                tool_assembly(
                    texts(function_tools@),
                    *function_tool_choice,
                    function_parallel_tool_calls,
                    *static_tools,
                    dynamic_tool_params,
                ),
            ),
    {
        let ghost names = texts(function_tools@);
        let ghost statics = static_tools_of(*static_tools, names);
        let ghost dynamics = dynamic_tools_of(dynamic_tool_params.additional_tools);
        let ghost allowed = dynamic_tool_params.allowed_tools;
        let ghost keep = |t: ToolConfig| lets_through(allowed, t.name_text());
        let mut tools: Vec<ToolConfig> = Vec::new();
        let mut i: usize = 0;
        proof {
            assert(statics.take(0) =~= Seq::<ToolConfig>::empty());
        }
        while i < function_tools.len()
            invariant
                i <= function_tools.len(),
                names == texts(function_tools@),
                statics == static_tools_of(*static_tools, names),
                allowed == dynamic_tool_params.allowed_tools,
                keep == |t: ToolConfig| lets_through(allowed, t.name_text()),
                forall|j: int| 0 <= j < i ==> static_tools.contains(#[trigger] names[j]),
                tools@ == statics.take(i as int).filter(keep),
            decreases function_tools.len() - i,
        {
            let name = function_tools[i].as_str();
            assert(names[i as int] == name@);
            match static_tools.get(name) {
                None => {
                    proof {
                        lemma_first_missing_step(*static_tools, names, i as int);
                    }
                    let mut message = String::from_str("Tool `");
                    message.append(name);
                    message.append("` is not present in the config");
                    return Err(Error::new(ErrorDetails::Config { message }));
                },
                Some(tool) => {
                    let config = ToolConfig::Static(tool.copy());
                    proof {
                        assert(statics.take(i + 1) =~= statics.take(i as int).push(statics[i as int]));
                        statics.take(i as int).lemma_filter_push(statics[i as int], keep);
                        assert(config == statics[i as int]);
                    }
                    if passes(&dynamic_tool_params.allowed_tools, config.name()) {
                        tools.push(config);
                    }
                },
            }
            i = i + 1;
        }
        proof {
            lemma_first_missing_step(*static_tools, names, names.len() as int);
            assert(statics.take(names.len() as int) =~= statics);
        }
        let DynamicToolParams { allowed_tools, additional_tools, tool_choice, parallel_tool_calls } =
            dynamic_tool_params;
        match additional_tools {
            Some(additional) => {
                let ghost all = additional@;
                let ghost mut k: int = 0;
                proof {
                    assert(dynamics.take(0) =~= Seq::<ToolConfig>::empty());
                    assert(statics + dynamics.take(0) =~= statics);
                }
                for tool in it: additional
                    invariant
                        it.seq() == all,
                        k == it.index(),
                        dynamics == Seq::new(all.len(), |i: int| dynamic_tool(all[i])),
                        allowed == allowed_tools,
                        keep == |t: ToolConfig| lets_through(allowed, t.name_text()),
                        tools@ == (statics + dynamics.take(k)).filter(keep),
                {
                    let config = ToolConfig::Dynamic(
                        DynamicToolConfig {
                            description: tool.description,
                            parameters: DynamicJSONSchema::new(tool.parameters),
                            name: tool.name,
                            strict: tool.strict,
                        },
                    );
                    proof {
                        assert(config == dynamics[k]);
                        assert(statics + dynamics.take(k + 1) =~= (statics + dynamics.take(k)).push(
                            dynamics[k],
                        ));
                        (statics + dynamics.take(k)).lemma_filter_push(dynamics[k], keep);
                        k = k + 1;
                    }
                    if passes(&allowed_tools, config.name()) {
                        tools.push(config);
                    }
                }
                proof {
                    assert(dynamics.take(all.len() as int) =~= dynamics);
                }
            },
            None => {
                proof {
                    assert(statics + dynamics =~= statics);
                }
            },
        }
        assert(tools@ == available_tools(names, *static_tools, dynamic_tool_params));
        let choice = match tool_choice {
            Some(c) => c,
            None => function_tool_choice.copy(),
        };
        if let ToolChoice::Specific(name) = &choice {
            if !tool_named(&tools, name.as_str()) {
                return Err(Error::new(ErrorDetails::ToolNotFound { name: name.clone() }));
            }
        }
        let parallel = match parallel_tool_calls {
            Some(p) => Some(p),
            None => function_parallel_tool_calls,
        };
        if tools.len() == 0 {
            Ok(None)
        } else {
            Ok(Some(ToolCallConfig { tools_available: tools, tool_choice: choice, parallel_tool_calls: parallel }))
        }
    }

    /// The tools of a JSON function for providers without a JSON mode: one
    /// tool, named `respond`, whose parameters are the output schema, and the
    /// choice of that tool.
    pub fn implicit_from_value(value: &Value) -> (c: ToolCallConfig)
        ensures
            c.tools_available@ == seq![
                ToolConfig::Implicit(
                    ImplicitToolConfig { parameters: StaticJSONSchema { value: *value } },
                ),
            ],
            c.tool_choice matches ToolChoice::Specific(name) && name@ == implicit_tool_name(),
            c.parallel_tool_calls is None,
    {
        let mut tools: Vec<ToolConfig> = Vec::new();
        tools.push(
            ToolConfig::Implicit(
                ImplicitToolConfig { parameters: StaticJSONSchema { value: value.clone() } },
            ),
        );
        assert(tools@ =~= seq![
            ToolConfig::Implicit(
                ImplicitToolConfig { parameters: StaticJSONSchema { value: *value } },
            ),
        ]);
        ToolCallConfig {
            tools_available: tools,
            tool_choice: ToolChoice::Specific(String::from_str("respond")),
            parallel_tool_calls: None,
        }
    }
}

} // verus!
