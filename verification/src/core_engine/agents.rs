//! The agent structures and their operations: messages and their history,
//! tool definitions, model settings, structured-output schemas, payloads,
//! response formats and the agent itself.
use vstd::prelude::*;
use std::collections::VecDeque;
use crate::core_engine::errors::AppError;
use crate::json::{
    JsonValue, JsonView, make_object, make_array, json_str, string_map_json, string_map_to_json,
};
use crate::keyed::{Duplicate, StrKeyed, insert_spec, lookup};

verus! {

/// A string-to-string map.
pub type StringMap = StrKeyed<String>;

/// A map from a parameter name to its settings.
pub type NestedStringMap = StrKeyed<StrKeyed<String>>;

/// `"string"`, the JSON schema type of text fields.
pub fn string() -> (r: String)
    ensures
        r@ == "string"@,
{
    String::from_str("string")
}

/// `"object"`, the JSON schema type of objects.
pub fn object() -> (r: String)
    ensures
        r@ == "object"@,
{
    String::from_str("object")
}

/// `"json_object"`, the response format without a schema.
pub fn json_object() -> (r: String)
    ensures
        r@ == "json_object"@,
{
    String::from_str("json_object")
}

/// `"json_schema"`, the response format with a schema.
pub fn json_schema() -> (r: String)
    ensures
        r@ == "json_schema"@,
{
    String::from_str("json_schema")
}

/// `"function"`, the only tool type the API takes.
pub fn function() -> (r: String)
    ensures
        r@ == "function"@,
{
    String::from_str("function")
}

/// The role of a message.
#[derive(Clone, Copy, Debug, PartialEq, Eq, Structural)]
pub enum MessageRole {
    System,
    Assistant,
    User,
    Unset,
}

/// The type of a structured-output field.
#[derive(Clone, Copy, Debug, PartialEq, Eq, Structural)]
pub enum SchemaFieldType {
    String,
    Bool,
    Int,
}

impl View for SchemaFieldType {
    type V = SchemaFieldType;

    open spec fn view(&self) -> SchemaFieldType {
        *self
    }
}

impl Duplicate for SchemaFieldType {
    fn duplicate(&self) -> (r: Self) {
        *self
    }
}

/// Where an agent is in its task.
#[derive(Clone, Copy, Debug, PartialEq, Eq, Structural)]
pub enum TaskCompletion {
    Done,
    Processing,
    Error,
    Idle,
}

impl Default for TaskCompletion {
    fn default() -> (r: Self)
        ensures
            r == TaskCompletion::Idle,
    {
        TaskCompletion::Idle
    }
}

/// The role of an agent in the team.
#[derive(Clone, Copy, Debug, PartialEq, Eq, Structural)]
pub enum AgentRole {
    RequestAnalyzer,
    Main,
    Pr,
    Sre1,
    Sre2,
    Unassigned,
}

impl Default for AgentRole {
    fn default() -> (r: Self)
        ensures
            r == AgentRole::Main,
    {
        AgentRole::Main
    }
}

/// Whether the model may, may not or must call a tool.
#[derive(Clone, Copy, Debug, PartialEq, Eq, Structural)]
pub enum ChoiceTool {
    NoTool,
    Auto,
    Required,
}

impl Default for ChoiceTool {
    fn default() -> (r: Self)
        ensures
            r == ChoiceTool::Auto,
    {
        ChoiceTool::Auto
    }
}

/// The name that the API gives a tool choice.
pub open spec fn choice_tool_name(c: ChoiceTool) -> Seq<char> {
    match c {
        ChoiceTool::NoTool => "none"@,
        ChoiceTool::Auto => "auto"@,
        ChoiceTool::Required => "required"@,
    }
}

/// The sender of a message sent to the model.
#[derive(Clone, Copy, Debug, PartialEq, Eq, Structural, Hash)]
pub enum UserType {
    Assistant,
    User,
    System,
    Tool,
}

impl Default for UserType {
    fn default() -> (r: Self)
        ensures
            r == UserType::User,
    {
        UserType::User
    }
}

/// The role name that the API gives a sender.
pub open spec fn user_type_name(t: UserType) -> Seq<char> {
    match t {
        UserType::User => "user"@,
        UserType::Assistant => "assistant"@,
        UserType::System => "system"@,
        UserType::Tool => "tool"@,
    }
}

/// A message appended to the history: with or without the id of the tool call it answers.
pub struct MessageToAppend {
    pub role: String,
    pub content: String,
    pub tool_call_id: String,
}

/// View of a message of the history.
pub struct MessageView {
    pub role: Seq<char>,
    pub content: Seq<char>,
    pub tool_call_id: Seq<char>,
}

impl View for MessageToAppend {
    type V = MessageView;

    open spec fn view(&self) -> MessageView {
        MessageView { role: self.role@, content: self.content@, tool_call_id: self.tool_call_id@ }
    }
}

/// The JSON of a message: `tool_call_id` is left out when it is empty.
pub open spec fn message_json(m: MessageView) -> JsonView {
    let base = seq![("role"@, JsonView::Str(m.role)), ("content"@, JsonView::Str(m.content))];
    if m.tool_call_id.len() == 0 {
        JsonView::Object(base)
    } else {
        JsonView::Object(base.push(("tool_call_id"@, JsonView::Str(m.tool_call_id))))
    }
}

impl MessageToAppend {
    /// A new message.
    pub fn new(message_role: &str, message_content: &str, message_tool_call_id: &str) -> (r: Self)
        ensures
            r.role@ == message_role@,
            r.content@ == message_content@,
            r.tool_call_id@ == message_tool_call_id@,
    {
        MessageToAppend {
            role: message_role.to_owned(),
            content: message_content.to_owned(),
            tool_call_id: message_tool_call_id.to_owned(),
        }
    }

    /// The JSON of the message.
    pub fn to_json(&self) -> (r: JsonValue)
        ensures
            r@ == message_json(self@),
    {
        let mut members: Vec<(String, JsonValue)> = Vec::new();
        members.push((String::from_str("role"), JsonValue::Str(self.role.clone())));
        members.push((String::from_str("content"), JsonValue::Str(self.content.clone())));
        if self.tool_call_id.as_str().unicode_len() != 0 {
            members.push((String::from_str("tool_call_id"), JsonValue::Str(self.tool_call_id.clone())));
        }
        let r = make_object(members);
        proof {
            let b = seq![("role"@, JsonView::Str(self.role@)), ("content"@, JsonView::Str(self.content@))];
            if self.tool_call_id@.len() == 0 {
                assert(members@.map_values(|p: (String, JsonValue)| (p.0@, p.1@)) =~= b);
            } else {
                assert(members@.map_values(|p: (String, JsonValue)| (p.0@, p.1@)) =~= b.push(
                    ("tool_call_id"@, JsonView::Str(self.tool_call_id@)),
                ));
            }
        }
        r
    }
}

impl Duplicate for MessageToAppend {
    fn duplicate(&self) -> (r: Self) {
        MessageToAppend {
            role: self.role.clone(),
            content: self.content.clone(),
            tool_call_id: self.tool_call_id.clone(),
        }
    }
}

/// The most messages the history keeps.
pub const HISTORY_CAPACITY: usize = 3;

/// The history after a message is appended: the message goes last, and the
/// oldest message leaves when the history already held its capacity.
pub open spec fn history_after_append(h: Seq<MessageView>, m: MessageView) -> Seq<MessageView> {
    if h.len() >= HISTORY_CAPACITY {
        h.drop_first().push(m)
    } else {
        h.push(m)
    }
}

/// The JSON of a history: `{"messages": [...]}`.
pub open spec fn history_json(h: Seq<MessageView>) -> JsonView {
    JsonView::Object(
        seq![("messages"@, JsonView::Array(h.map_values(|m: MessageView| message_json(m))))],
    )
}

/// The bounded history of messages sent to a model, oldest first.
pub struct MessageHistory {
    pub messages: VecDeque<MessageToAppend>,
}

impl View for MessageHistory {
    type V = Seq<MessageView>;

    open spec fn view(&self) -> Seq<MessageView> {
        self.messages@.map_values(|m: MessageToAppend| m@)
    }
}

impl MessageHistory {
    /// An empty history.
    pub fn new() -> (r: Self)
        ensures
            r@ == Seq::<MessageView>::empty(),
    {
        let deque: VecDeque<MessageToAppend> = VecDeque::with_capacity(HISTORY_CAPACITY);
        let r = MessageHistory { messages: deque };
        assert(r@ =~= Seq::<MessageView>::empty());
        r
    }

    /// Appends a message, dropping the oldest one when the history is full,
    /// and returns the JSON of the updated history.
    pub fn append_message_to_history(&mut self, message_to_append: &MessageToAppend) -> (r: Result<
        JsonValue,
        AppError,
    >)
        ensures
            final(self)@ == history_after_append(old(self)@, message_to_append@),
            r matches Ok(j) && j@ == history_json(final(self)@),
    {
        let ghost before = self@;
        if self.messages.len() >= HISTORY_CAPACITY {
            let _ = self.messages.pop_front();
            self.messages.push_back(message_to_append.duplicate());
            assert(self@ =~= before.drop_first().push(message_to_append@));
        } else {
            self.messages.push_back(message_to_append.duplicate());
            assert(self@ =~= before.push(message_to_append@));
        }
        Ok(self.to_json())
    }

    /// The JSON of the history.
    pub fn to_json(&self) -> (r: JsonValue)
        ensures
            r@ == history_json(self@),
    {
        let mut items: Vec<JsonValue> = Vec::new();
        let mut i: usize = 0;
        while i < self.messages.len()
            invariant
                i <= self.messages@.len(),
                items.len() == i,
                forall|k: int| 0 <= k < i ==> (#[trigger] items@[k])@ == message_json(self.messages@[k]@),
            decreases self.messages@.len() - i,
        {
            items.push(self.messages[i].to_json());
            i = i + 1;
        }
        let arr = make_array(items);
        assert(items@.map_values(|x: JsonValue| x@) =~= self@.map_values(|m: MessageView| message_json(m)));
        let mut members: Vec<(String, JsonValue)> = Vec::new();
        members.push((String::from_str("messages"), arr));
        let r = make_object(members);
        assert(members@.map_values(|p: (String, JsonValue)| (p.0@, p.1@)) =~= seq![
            ("messages"@, JsonView::Array(self@.map_values(|m: MessageView| message_json(m)))),
        ]);
        r
    }

    /// Empties the history.
    pub fn clear_history(&mut self) -> (r: Result<(), AppError>)
        ensures
            final(self)@ == Seq::<MessageView>::empty(),
            r is Ok,
    {
        self.messages.clear();
        assert(self@ =~= Seq::<MessageView>::empty());
        Ok(())
    }
}

impl Default for MessageHistory {
    fn default() -> (r: Self)
        ensures
            r@ == Seq::<MessageView>::empty(),
    {
        let r = MessageHistory { messages: VecDeque::new() };
        assert(r@ =~= Seq::<MessageView>::empty());
        r
    }
}


/// The function that a tool call names, with its arguments.
pub struct ToolCallFunction {
    pub name: String,
    pub arguments: JsonValue,
}

/// A tool call in a model's answer: `choices[0].message.tool_calls[i]`.
pub struct ToolCall {
    pub function: ToolCallFunction,
    pub id: String,
}

/// The message of a model's answer.
pub struct ResponseMessage {
    pub content: Option<String>,
    pub role: String,
    pub tool_calls: Option<Vec<ToolCall>>,
}

/// One choice of a model's answer.
pub struct ResponseChoices {
    pub finish_reason: String,
    pub message: ResponseMessage,
}

/// A model's answer, with the fields the engine reads.
pub struct LlmResponse {
    pub choices: Vec<ResponseChoices>,
    pub object: String,
}

/// The view of a list of string maps.
pub open spec fn maps_view(v: Seq<StringMap>) -> Seq<Seq<(Seq<char>, Seq<char>)>> {
    v.map_values(|m: StringMap| m@)
}

/// The view of a list of JSON values.
pub open spec fn jsons_view(v: Seq<JsonValue>) -> Seq<JsonView> {
    v.map_values(|x: JsonValue| x@)
}

/// The settings that a tool keeps of one parameter: its `type` and its
/// `description`, in the order in which `elem` holds them.
pub open spec fn parameter_settings(elem: Seq<(Seq<char>, Seq<char>)>) -> Seq<(Seq<char>, Seq<char>)>
    decreases elem.len(),
{
    if elem.len() == 0 {
        Seq::empty()
    } else {
        let prev = parameter_settings(elem.drop_last());
        let k = elem.last().0;
        if k == "type"@ || k == "description"@ {
            insert_spec(prev, k, elem.last().1)
        } else {
            prev
        }
    }
}

/// The parameters object of a tool: each parameter that has a `name` maps
/// that name to its settings; a later parameter of the same name replaces
/// an earlier one.
pub open spec fn function_parameters(ps: Seq<Seq<(Seq<char>, Seq<char>)>>) -> Seq<
    (Seq<char>, Seq<(Seq<char>, Seq<char>)>),
>
    decreases ps.len(),
{
    if ps.len() == 0 {
        Seq::empty()
    } else {
        let prev = function_parameters(ps.drop_last());
        match lookup(ps.last(), "name"@) {
            Some(n) => insert_spec(prev, n, parameter_settings(ps.last())),
            None => prev,
        }
    }
}

/// The JSON object of a name-to-map map.
pub open spec fn nested_map_json(p: Seq<(Seq<char>, Seq<(Seq<char>, Seq<char>)>)>) -> JsonView {
    JsonView::Object(
        p.map_values(|e: (Seq<char>, Seq<(Seq<char>, Seq<char>)>)| (e.0, string_map_json(e.1))),
    )
}

/// Renders a name-to-map map as a JSON object of objects.
pub fn nested_map_to_json(m: &NestedStringMap) -> (r: JsonValue)
    ensures
        r@ == nested_map_json(m@),
{
    let mut members: Vec<(String, JsonValue)> = Vec::new();
    let mut i: usize = 0;
    while i < m.len()
        invariant
            i <= m@.len(),
            members.len() == i,
            forall|k: int|
                0 <= k < i ==> (#[trigger] members@[k]).0@ == m@[k].0 && members@[k].1@
                    == string_map_json(m@[k].1),
        decreases m@.len() - i,
    {
        let (k, v) = m.entry(i);
        members.push((k.clone(), string_map_to_json(v)));
        i = i + 1;
    }
    let r = make_object(members);
    assert(members@.map_values(|p: (String, JsonValue)| (p.0@, p.1@)) =~= m@.map_values(
        |e: (Seq<char>, Seq<(Seq<char>, Seq<char>)>)| (e.0, string_map_json(e.1)),
    ));
    r
}

/// Builds the `parameters` settings of a tool's function.
pub struct FunctionParametersContainer {}

impl FunctionParametersContainer {
    /// Maps the name of each parameter to its `type` and `description`.
    pub fn create_function_parameters_object(param_settings: &[StringMap]) -> (r: Result<
        NestedStringMap,
        AppError,
    >)
        ensures
            r matches Ok(m) && m@ == function_parameters(maps_view(param_settings@)),
    {
        let ghost ps = maps_view(param_settings@);
        let mut outer: NestedStringMap = StrKeyed::new();
        let mut i: usize = 0;
        while i < param_settings.len()
            invariant
                i <= param_settings@.len(),
                ps == maps_view(param_settings@),
                outer@ == function_parameters(ps.take(i as int)),
            decreases param_settings@.len() - i,
        {
            let elem = &param_settings[i];
            let mut inner: StringMap = StrKeyed::new();
            let mut j: usize = 0;
            while j < elem.len()
                invariant
                    j <= elem@.len(),
                    inner@ == parameter_settings(elem@.take(j as int)),
                decreases elem@.len() - j,
            {
                let (k, v) = elem.entry(j);
                assert(elem@.take(j + 1).drop_last() =~= elem@.take(j as int));
                if crate::text::str_eq(k.as_str(), "type") {
                    inner.insert(String::from_str("type"), v.clone());
                } else if crate::text::str_eq(k.as_str(), "description") {
                    inner.insert(String::from_str("description"), v.clone());
                }
                j = j + 1;
            }
            assert(elem@.take(elem@.len() as int) =~= elem@);
            assert(ps.take(i + 1).drop_last() =~= ps.take(i as int));
            assert(ps.take(i + 1).last() == elem@);
            match elem.get("name") {
                Some(n) => {
                    outer.insert(n.clone(), inner.duplicate());
                },
                None => {},
            }
            i = i + 1;
        }
        assert(ps.take(param_settings@.len() as int) =~= ps);
        Ok(outer)
    }
}

/// The text that a tool sends for its `strict` flag.
pub open spec fn strict_text(strict: bool) -> Seq<char> {
    if strict {
        "True"@
    } else {
        "False"@
    }
}

/// The `function` object of a tool: name, strict flag, description and parameters.
pub open spec fn function_details_json(
    name: Seq<char>,
    strict: bool,
    description: Seq<char>,
    parameters: Seq<(Seq<char>, Seq<(Seq<char>, Seq<char>)>)>,
) -> JsonView {
    JsonView::Object(
        seq![
            ("name"@, JsonView::Str(name)),
            ("strict"@, JsonView::Str(strict_text(strict))),
            ("description"@, JsonView::Str(description)),
            (
                "parameters"@,
                JsonView::Object(
                    seq![
                        ("type"@, JsonView::Str("object"@)),
                        ("properties"@, nested_map_json(parameters)),
                    ],
                ),
            ),
        ],
    )
}

/// The description of a function that a tool exposes.
pub struct FunctionDetails {
    pub name: String,
    pub strict: bool,
    pub description: String,
    pub parameters: NestedStringMap,
}

impl FunctionDetails {
    /// The details of a function, its parameters built from their settings.
    pub fn new(fn_name: &str, param_strict: bool, fn_description: &str, param_settings: &[StringMap]) -> (r:
        Result<Self, AppError>)
        ensures
            r matches Ok(d) && d.name@ == fn_name@ && d.strict == param_strict && d.description@
                == fn_description@ && d.parameters@ == function_parameters(maps_view(param_settings@)),
    {
        let parameters_settings =
            FunctionParametersContainer::create_function_parameters_object(param_settings)?;
        Ok(
            FunctionDetails {
                name: fn_name.to_owned(),
                strict: param_strict,
                description: fn_description.to_owned(),
                parameters: parameters_settings,
            },
        )
    }

    /// The `function` object of the tool.
    pub fn create_function_with_parameters_object(&self) -> (r: Result<JsonValue, AppError>)
        ensures
            r matches Ok(j) && j@ == function_details_json(
                self.name@,
                self.strict,
                self.description@,
                self.parameters@,
            ),
    {
        let mut params: Vec<(String, JsonValue)> = Vec::new();
        params.push((String::from_str("type"), json_str("object")));
        params.push((String::from_str("properties"), nested_map_to_json(&self.parameters)));
        let params_obj = make_object(params);
        let ghost params_view = params_obj@;
        let strict = if self.strict {
            String::from_str("True")
        } else {
            String::from_str("False")
        };
        let mut details: Vec<(String, JsonValue)> = Vec::new();
        details.push((String::from_str("name"), JsonValue::Str(self.name.clone())));
        details.push((String::from_str("strict"), JsonValue::Str(strict)));
        details.push((String::from_str("description"), JsonValue::Str(self.description.clone())));
        details.push((String::from_str("parameters"), params_obj));
        let j = make_object(details);
        proof {
            assert(params@.map_values(|p: (String, JsonValue)| (p.0@, p.1@)) =~= seq![
                ("type"@, JsonView::Str("object"@)),
                ("properties"@, nested_map_json(self.parameters@)),
            ]);
            assert(strict@ == strict_text(self.strict));
            assert(details@.map_values(|p: (String, JsonValue)| (p.0@, p.1@)) =~= seq![
                ("name"@, JsonView::Str(self.name@)),
                ("strict"@, JsonView::Str(strict_text(self.strict))),
                ("description"@, JsonView::Str(self.description@)),
                ("parameters"@, params_view),
            ]);
            assert(j@ =~~= function_details_json(
                self.name@,
                self.strict,
                self.description@,
                self.parameters@,
            ));
        }
        Ok(j)
    }
}

/// The tool object of a function: `{"type": "function", "function": <details>}`, the
/// function's name, description and parameters standing directly under `function`.
pub open spec fn function_part_json(details: JsonView) -> JsonView {
    JsonView::Object(seq![("type"@, JsonView::Str("function"@)), ("function"@, details)])
}

/// A function tool: its type and its details.
pub struct Function {
    pub kind: String,
    pub func: JsonValue,
}

impl Function {
    /// The JSON of the function: its `type` and its `func`.
    pub fn to_json(&self) -> (r: JsonValue)
        ensures
            r@ == JsonView::Object(
                seq![("type"@, JsonView::Str(self.kind@)), ("func"@, self.func@)],
            ),
    {
        let mut m: Vec<(String, JsonValue)> = Vec::new();
        m.push((String::from_str("type"), JsonValue::Str(self.kind.clone())));
        m.push((String::from_str("func"), self.func.copy_value()));
        let r = make_object(m);
        assert(m@.map_values(|p: (String, JsonValue)| (p.0@, p.1@)) =~= seq![
            ("type"@, JsonView::Str(self.kind@)),
            ("func"@, self.func@),
        ]);
        r
    }

    /// The tool object of a function.
    pub fn create_function_part(function_details: &FunctionDetails) -> (r: Result<JsonValue, AppError>)
        ensures
            r matches Ok(j) && j@ == function_part_json(
                function_details_json(
                    function_details.name@,
                    function_details.strict,
                    function_details.description@,
                    function_details.parameters@,
                ),
            ),
    {
        let func_final_object = match function_details.create_function_with_parameters_object() {
            Ok(full_object_func) => full_object_func,
            Err(e) => {
                let msg = String::from_str(
                    "An Error Occured While Trying to get func_final_object: ",
                ).concat(e.to_display_string().as_str());
                return Err(AppError::Agent(msg));
            },
        };
        let ghost details = func_final_object@;
        let mut part: Vec<(String, JsonValue)> = Vec::new();
        part.push((String::from_str("type"), json_str("function")));
        part.push((String::from_str("function"), func_final_object));
        let j = make_object(part);
        assert(part@.map_values(|p: (String, JsonValue)| (p.0@, p.1@)) =~= seq![
            ("type"@, JsonView::Str("function"@)),
            ("function"@, details),
        ]);
        Ok(j)
    }
}

/// The tools of an agent, each a tool object.
pub struct Tools {
    pub tools: Vec<JsonValue>,
}

impl Tools {
    /// No tools.
    pub fn new() -> (r: Tools)
        ensures
            r.tools@.len() == 0,
    {
        Tools { tools: Vec::new() }
    }

    /// Adds the given tools after the present ones.
    pub fn add_function_tool(&mut self, list_tools: &[JsonValue]) -> (r: Result<(), AppError>)
        ensures
            r is Ok,
            jsons_view(final(self).tools@) == jsons_view(old(self).tools@) + jsons_view(list_tools@),
    {
        let ghost before = jsons_view(self.tools@);
        let mut i: usize = 0;
        while i < list_tools.len()
            invariant
                i <= list_tools@.len(),
                jsons_view(self.tools@) == before + jsons_view(list_tools@.take(i as int)),
            decreases list_tools@.len() - i,
        {
            let ghost prev = self.tools@;
            let c = list_tools[i].copy_value();
            self.tools.push(c);
            proof {
                assert(self.tools@ == prev.push(c));
                assert(list_tools@.take(i + 1) =~= list_tools@.take(i as int).push(list_tools@[i as int]));
                assert(jsons_view(prev.push(c)) =~= jsons_view(prev).push(c@));
                assert(jsons_view(list_tools@.take(i as int).push(list_tools@[i as int])) =~= jsons_view(
                    list_tools@.take(i as int),
                ).push(list_tools@[i as int]@));
                assert(jsons_view(self.tools@) =~= before + jsons_view(list_tools@.take(i + 1)));
            }
            i = i + 1;
        }
        assert(list_tools@.take(list_tools@.len() as int) =~= list_tools@);
        Ok(())
    }
}

/// Copies a list of JSON values.
pub fn copy_jsons(v: &[JsonValue]) -> (r: Vec<JsonValue>)
    ensures
        jsons_view(r@) == jsons_view(v@),
{
    let mut out: Vec<JsonValue> = Vec::new();
    let mut i: usize = 0;
    while i < v.len()
        invariant
            i <= v@.len(),
            jsons_view(out@) == jsons_view(v@.take(i as int)),
        decreases v@.len() - i,
    {
        let ghost prev = out@;
        let c = v[i].copy_value();
        out.push(c);
        proof {
            assert(out@ == prev.push(c));
            assert(v@.take(i + 1) =~= v@.take(i as int).push(v@[i as int]));
            assert(jsons_view(prev.push(c)) =~= jsons_view(prev).push(c@));
            assert(jsons_view(v@.take(i as int).push(v@[i as int])) =~= jsons_view(v@.take(i as int)).push(
                v@[i as int]@,
            ));
        }
        i = i + 1;
    }
    assert(v@.take(v@.len() as int) =~= v@);
    out
}

/// Copies a list of string maps.
pub fn copy_maps(v: &[StringMap]) -> (r: Vec<StringMap>)
    ensures
        maps_view(r@) == maps_view(v@),
{
    let mut out: Vec<StringMap> = Vec::new();
    let mut i: usize = 0;
    while i < v.len()
        invariant
            i <= v@.len(),
            maps_view(out@) == maps_view(v@.take(i as int)),
        decreases v@.len() - i,
    {
        let ghost prev = out@;
        let c = v[i].duplicate();
        out.push(c);
        proof {
            assert(out@ == prev.push(c));
            assert(v@.take(i + 1) =~= v@.take(i as int).push(v@[i as int]));
            assert(maps_view(prev.push(c)) =~= maps_view(prev).push(c@));
            assert(maps_view(v@.take(i as int).push(v@[i as int])) =~= maps_view(v@.take(i as int)).push(
                v@[i as int]@,
            ));
        }
        i = i + 1;
    }
    assert(v@.take(v@.len() as int) =~= v@);
    out
}


/// A map of two distinct keys, in the given order.
pub fn map_of_two(k1: &str, v1: String, k2: &str, v2: String) -> (r: StringMap)
    requires
        k1@ != k2@,
    ensures
        r@ == seq![(k1@, v1@), (k2@, v2@)],
{
    let mut m: StringMap = StrKeyed::new();
    m.insert(k1.to_owned(), v1);
    m.insert(k2.to_owned(), v2);
    assert(m@ =~= seq![(k1@, v1@), (k2@, v2@)]);
    m
}

/// View of a prompt ready to be sent: its sender's role name and its text.
pub struct MessagesSentView {
    pub user_type: Seq<char>,
    pub content: Seq<char>,
}

/// A prompt to send to a model: `{"content": ..., "role": ...}`.
pub struct MessagesSent {
    pub user_type: String,
    pub content: String,
}

impl View for MessagesSent {
    type V = MessagesSentView;

    open spec fn view(&self) -> MessagesSentView {
        MessagesSentView { user_type: self.user_type@, content: self.content@ }
    }
}

impl Duplicate for MessagesSent {
    fn duplicate(&self) -> (r: Self) {
        MessagesSent { user_type: self.user_type.clone(), content: self.content.clone() }
    }
}

/// The map sent for a message: its content, then its role.
pub open spec fn message_sent_map(m: MessagesSentView) -> Seq<(Seq<char>, Seq<char>)> {
    seq![("content"@, m.content), ("role"@, m.user_type)]
}

impl MessagesSent {
    /// A prompt from its sender and its text.
    pub fn create_new_message_struct_to_send(type_user: &UserType, content: &str) -> (r: Self)
        ensures
            r.user_type@ == user_type_name(*type_user),
            r.content@ == content@,
    {
        let t_user = match type_user {
            UserType::User => String::from_str("user"),
            UserType::Assistant => String::from_str("assistant"),
            UserType::System => String::from_str("system"),
            UserType::Tool => String::from_str("tool"),
        };
        MessagesSent { user_type: t_user, content: content.to_owned() }
    }

    /// The map sent for this message.
    pub fn format_new_message_to_send(&self) -> (r: StringMap)
        ensures
            r@ == message_sent_map(self@),
    {
        proof {
            reveal_strlit("content");
            reveal_strlit("role");
            assert("content"@.len() != "role"@.len());
        }
        map_of_two("content", self.content.clone(), "role", self.user_type.clone())
    }

    /// The list of messages to send, as given.
    pub fn list_messages_to_send(messages_list_slice: &[StringMap]) -> (r: Vec<StringMap>)
        ensures
            maps_view(r@) == maps_view(messages_list_slice@),
    {
        copy_maps(messages_list_slice)
    }

    /// Replaces the text of the prompt.
    pub fn update_message_content_to_send(&mut self, new_message_content: &str) -> (r: Result<
        String,
        AppError,
    >)
        ensures
            final(self).content@ == new_message_content@,
            final(self).user_type@ == old(self).user_type@,
            r matches Ok(m) && m@ == "Message field has been updated successfully"@,
    {
        self.content = new_message_content.to_owned();
        if crate::text::str_eq(self.content.as_str(), new_message_content) {
            Ok(String::from_str("Message field has been updated successfully"))
        } else {
            Err(
                AppError::Messages(
                    String::from_str("An error occured while trying to update message content"),
                ),
            )
        }
    }
}

/// The view of an optional list of tools.
pub open spec fn opt_jsons_view(o: Option<Vec<JsonValue>>) -> Option<Seq<JsonView>> {
    match o {
        Some(v) => Some(jsons_view(v@)),
        None => None,
    }
}

/// View of the settings of a model.
pub struct ModelSettingsView {
    pub name: Seq<char>,
    pub max_completion: u64,
    pub temperature: u64,
    pub message: Seq<Seq<(Seq<char>, Seq<char>)>>,
    pub tool_choice: ChoiceTool,
    pub tools: Option<Seq<JsonView>>,
    pub kind: Seq<char>,
}

/// The settings of the model an agent calls.
pub struct ModelSettings {
    pub name: String,
    pub max_completion: u64,
    pub temperature: u64,
    pub message: Vec<StringMap>,
    pub tool_choice: ChoiceTool,
    pub tools: Option<Vec<JsonValue>>,
    pub kind: String,
}

impl View for ModelSettings {
    type V = ModelSettingsView;

    open spec fn view(&self) -> ModelSettingsView {
        ModelSettingsView {
            name: self.name@,
            max_completion: self.max_completion,
            temperature: self.temperature,
            message: maps_view(self.message@),
            tool_choice: self.tool_choice,
            tools: opt_jsons_view(self.tools),
            kind: self.kind@,
        }
    }
}

/// Copies an optional list of tools.
pub fn copy_opt_jsons(o: &Option<Vec<JsonValue>>) -> (r: Option<Vec<JsonValue>>)
    ensures
        opt_jsons_view(r) == opt_jsons_view(*o),
{
    match o {
        Some(v) => Some(copy_jsons(v.as_slice())),
        None => None,
    }
}

impl Duplicate for ModelSettings {
    fn duplicate(&self) -> (r: Self) {
        ModelSettings {
            name: self.name.clone(),
            max_completion: self.max_completion,
            temperature: self.temperature,
            message: copy_maps(self.message.as_slice()),
            tool_choice: self.tool_choice,
            tools: copy_opt_jsons(&self.tools),
            kind: self.kind.clone(),
        }
    }
}

/// The new value of a text setting: the given one, or the old one when none is given.
pub open spec fn updated_text(given: Option<&str>, old: Seq<char>) -> Seq<char> {
    match given {
        Some(v) => v@,
        None => old,
    }
}

/// The view of an optional text.
pub open spec fn opt_text(given: Option<&str>) -> Option<Seq<char>> {
    match given {
        Some(v) => Some(v@),
        None => None,
    }
}

/// The given value, or the old one when none is given.
pub open spec fn or_keep<T>(given: Option<T>, old: T) -> T {
    match given {
        Some(v) => v,
        None => old,
    }
}

/// Settings once each given setting replaces the old one.
pub open spec fn settings_updated(
    s: ModelSettingsView,
    name: Option<Seq<char>>,
    max_completion: Option<u64>,
    temperature: Option<u64>,
    message: Option<Seq<Seq<(Seq<char>, Seq<char>)>>>,
    tool_choice: Option<ChoiceTool>,
    tools: Option<Option<Seq<JsonView>>>,
    kind: Option<Seq<char>>,
) -> ModelSettingsView {
    ModelSettingsView {
        name: or_keep(name, s.name),
        max_completion: or_keep(max_completion, s.max_completion),
        temperature: or_keep(temperature, s.temperature),
        message: or_keep(message, s.message),
        tool_choice: or_keep(tool_choice, s.tool_choice),
        tools: or_keep(tools, s.tools),
        kind: or_keep(kind, s.kind),
    }
}

impl ModelSettings {
    /// Settings for a model with the given messages and tools; the tool
    /// choice is `Auto` and the type is `"function"`.
    pub fn initialize_model_settings_with_tools(
        model_name: &str,
        model_max_completion: u64,
        model_temperature: u64,
        model_message: &[StringMap],
        list_tools: &[JsonValue],
    ) -> (r: ModelSettings)
        ensures
            r@ == (ModelSettingsView {
                name: model_name@,
                max_completion: model_max_completion,
                temperature: model_temperature,
                message: maps_view(model_message@),
                tool_choice: ChoiceTool::Auto,
                tools: Some(jsons_view(list_tools@)),
                kind: "function"@,
            }),
    {
        ModelSettings {
            name: model_name.to_owned(),
            max_completion: model_max_completion,
            temperature: model_temperature,
            message: copy_maps(model_message),
            tool_choice: ChoiceTool::Auto,
            tools: Some(copy_jsons(list_tools)),
            kind: function(),
        }
    }

    /// Replaces each setting that is given and keeps the others.
    pub fn update_model_settings(
        &mut self,
        model_name: Option<&str>,
        model_max_completion: Option<u64>,
        model_temperature: Option<u64>,
        model_messages: Option<&[StringMap]>,
        model_tool_choice: Option<&ChoiceTool>,
        model_tools: Option<&Option<Vec<JsonValue>>>,
        model_type: Option<&str>,
    ) -> (r: Result<(), AppError>)
        ensures
            r is Ok,
            final(self)@ == settings_updated(
                old(self)@,
                opt_text(model_name),
                model_max_completion,
                model_temperature,
                match model_messages {
                    Some(v) => Some(maps_view(v@)),
                    None => None,
                },
                match model_tool_choice {
                    Some(v) => Some(*v),
                    None => None,
                },
                match model_tools {
                    Some(v) => Some(opt_jsons_view(*v)),
                    None => None,
                },
                opt_text(model_type),
            ),
    {
        if let Some(value) = model_name {
            self.name = value.to_owned();
        }
        if let Some(value) = model_max_completion {
            self.max_completion = value;
        }
        if let Some(value) = model_temperature {
            self.temperature = value;
        }
        if let Some(value) = model_messages {
            self.message = copy_maps(value);
        }
        if let Some(value) = model_tool_choice {
            self.tool_choice = *value;
        }
        if let Some(value) = model_tools {
            self.tools = copy_opt_jsons(value);
        }
        if let Some(value) = model_type {
            self.kind = value.to_owned();
        }
        Ok(())
    }
}

/// The JSON schema name of a field type.
pub open spec fn field_type_name(t: SchemaFieldType) -> Seq<char> {
    match t {
        SchemaFieldType::String => "string"@,
        SchemaFieldType::Int => "integer"@,
        SchemaFieldType::Bool => "boolean"@,
    }
}

/// The schema properties of a field dictionary: each field maps to `{"type": <its type name>}`.
pub open spec fn schema_properties(d: Seq<(Seq<char>, SchemaFieldType)>) -> Seq<
    (Seq<char>, Seq<(Seq<char>, Seq<char>)>),
> {
    d.map_values(
        |p: (Seq<char>, SchemaFieldType)| (p.0, seq![("type"@, field_type_name(p.1))]),
    )
}

/// Builds the properties of structured-output schemas.
pub struct SchemaFieldDetails;

impl SchemaFieldDetails {
    /// `{"type": <the field type's name>}`.
    pub fn create_schema_field_type_as_map(field_type: &SchemaFieldType) -> (r: StringMap)
        ensures
            r@ == seq![("type"@, field_type_name(*field_type))],
    {
        let field_string_type = match field_type {
            SchemaFieldType::String => String::from_str("string"),
            SchemaFieldType::Int => String::from_str("integer"),
            SchemaFieldType::Bool => String::from_str("boolean"),
        };
        let mut m: StringMap = StrKeyed::new();
        m.insert(String::from_str("type"), field_string_type);
        assert(m@ =~= seq![("type"@, field_type_name(*field_type))]);
        m
    }

    /// The properties of a schema: each field of the dictionary with its type map.
    pub fn create_schema_field(dictionary_fields_definition: &StrKeyed<SchemaFieldType>) -> (r:
        NestedStringMap)
        ensures
            r@ == schema_properties(dictionary_fields_definition@),
    {
        let d = dictionary_fields_definition;
        let mut properties: NestedStringMap = StrKeyed::new();
        let mut i: usize = 0;
        let n = d.len();
        while i < n
            invariant
                n == d@.len(),
                i <= d@.len(),
                crate::keyed::distinct_keys(d@),
                properties@ == schema_properties(d@.take(i as int)),
            decreases d@.len() - i,
        {
            let (key, type_value) = d.entry(i);
            let field_type = SchemaFieldDetails::create_schema_field_type_as_map(type_value);
            proof {
                assert forall|j: int| 0 <= j < properties@.len() implies properties@[j].0 != d@[i as int].0 by {
                    assert(properties@[j].0 == d@[j].0);
                }
                crate::keyed::lemma_insert_fresh(properties@, key@, field_type@);
            }
            properties.insert(key.clone(), field_type);
            assert(schema_properties(d@.take(i + 1)) =~= schema_properties(d@.take(i as int)).push(
                (d@[i as int].0, seq![("type"@, field_type_name(d@[i as int].1))]),
            ));
            i = i + 1;
        }
        assert(d@.take(d@.len() as int) =~= d@);
        properties
    }
}

/// View of a structured-output schema.
pub struct SchemaView {
    pub kind: Seq<char>,
    pub properties: Seq<(Seq<char>, Seq<(Seq<char>, Seq<char>)>)>,
    pub required: Seq<Seq<char>>,
    pub additional_properties: bool,
}

/// A structured-output schema: an object with its field types and its required fields.
#[allow(non_snake_case)]
pub struct Schema {
    pub kind: String,
    pub properties: NestedStringMap,
    pub required: Vec<String>,
    pub additionalProperties: bool,
}

/// The view of a list of strings.
pub open spec fn strings_view(v: Seq<String>) -> Seq<Seq<char>> {
    v.map_values(|s: String| s@)
}

impl View for Schema {
    type V = SchemaView;

    open spec fn view(&self) -> SchemaView {
        SchemaView {
            kind: self.kind@,
            properties: self.properties@,
            required: strings_view(self.required@),
            additional_properties: self.additionalProperties,
        }
    }
}

/// Copies a list of strings.
pub fn copy_strings(v: &[String]) -> (r: Vec<String>)
    ensures
        strings_view(r@) == strings_view(v@),
{
    let mut out: Vec<String> = Vec::new();
    let mut i: usize = 0;
    while i < v.len()
        invariant
            i <= v@.len(),
            out@.len() == i,
            forall|k: int| 0 <= k < i ==> (#[trigger] out@[k])@ == v@[k]@,
        decreases v@.len() - i,
    {
        out.push(v[i].clone());
        i = i + 1;
    }
    assert(strings_view(out@) =~= strings_view(v@));
    out
}

impl Duplicate for Schema {
    fn duplicate(&self) -> (r: Self) {
        Schema {
            kind: self.kind.clone(),
            properties: self.properties.duplicate(),
            required: copy_strings(self.required.as_slice()),
            additionalProperties: self.additionalProperties,
        }
    }
}

/// The JSON of a schema: `type`, `properties`, `required` (left out when
/// empty) and `additionalProperties`.
pub open spec fn schema_json(s: SchemaView) -> JsonView {
    let head = seq![
        ("type"@, JsonView::Str(s.kind)),
        ("properties"@, nested_map_json(s.properties)),
    ];
    let req = if s.required.len() == 0 {
        Seq::empty()
    } else {
        seq![("required"@, JsonView::Array(s.required.map_values(|r: Seq<char>| JsonView::Str(r))))]
    };
    JsonView::Object(head + req + seq![("additionalProperties"@, JsonView::Bool(s.additional_properties))])
}

/// Renders a list of strings as a JSON array of strings.
pub fn strings_to_json(v: &[String]) -> (r: JsonValue)
    ensures
        r@ == JsonView::Array(strings_view(v@).map_values(|r: Seq<char>| JsonView::Str(r))),
{
    let mut items: Vec<JsonValue> = Vec::new();
    let mut i: usize = 0;
    while i < v.len()
        invariant
            i <= v@.len(),
            items@.len() == i,
            forall|k: int| 0 <= k < i ==> (#[trigger] items@[k])@ == JsonView::Str(v@[k]@),
        decreases v@.len() - i,
    {
        items.push(JsonValue::Str(v[i].clone()));
        i = i + 1;
    }
    let r = make_array(items);
    assert(items@.map_values(|x: JsonValue| x@) =~= strings_view(v@).map_values(
        |r: Seq<char>| JsonView::Str(r),
    ));
    r
}

impl Schema {
    /// A schema of type `"object"` with the given properties and required
    /// fields (none when not given), and no additional properties.
    pub fn new(
        properties_fields_types: &NestedStringMap,
        schema_field_requirement: Option<&Vec<String>>,
    ) -> (r: Schema)
        ensures
            r@ == (SchemaView {
                kind: "object"@,
                properties: properties_fields_types@,
                required: match schema_field_requirement {
                    Some(v) => strings_view(v@),
                    None => Seq::empty(),
                },
                additional_properties: false,
            }),
    {
        let required_params = match schema_field_requirement {
            Some(vec_content) => copy_strings(vec_content.as_slice()),
            None => Vec::new(),
        };
        let r = Schema {
            kind: object(),
            properties: properties_fields_types.duplicate(),
            required: required_params,
            additionalProperties: false,
        };
        assert(r@.required =~= match schema_field_requirement {
            Some(v) => strings_view(v@),
            None => Seq::empty(),
        });
        r
    }

    /// The JSON of the schema.
    pub fn to_json(&self) -> (r: JsonValue)
        ensures
            r@ == schema_json(self@),
    {
        let mut m: Vec<(String, JsonValue)> = Vec::new();
        m.push((String::from_str("type"), JsonValue::Str(self.kind.clone())));
        m.push((String::from_str("properties"), nested_map_to_json(&self.properties)));
        let has_required = self.required.len() != 0;
        if has_required {
            m.push((String::from_str("required"), strings_to_json(self.required.as_slice())));
        }
        m.push((String::from_str("additionalProperties"), JsonValue::Bool(self.additionalProperties)));
        let r = make_object(m);
        proof {
            let s = self@;
            let head = seq![
                ("type"@, JsonView::Str(s.kind)),
                ("properties"@, nested_map_json(s.properties)),
            ];
            let tail = seq![("additionalProperties"@, JsonView::Bool(s.additional_properties))];
            if has_required {
                let req = seq![("required"@, JsonView::Array(s.required.map_values(|r: Seq<char>| JsonView::Str(r))))];
                assert(m@.map_values(|p: (String, JsonValue)| (p.0@, p.1@)) =~= head + req + tail);
            } else {
                assert(m@.map_values(|p: (String, JsonValue)| (p.0@, p.1@)) =~= head + Seq::empty() + tail);
            }
        }
        r
    }
}


/// `{"only": ["Cerebras"]}`: the provider the payload asks for.
pub open spec fn provider_json() -> JsonView {
    JsonView::Object(seq![("only"@, JsonView::Array(seq![JsonView::Str("Cerebras"@)]))])
}

/// The JSON array of a list of string maps.
pub open spec fn maps_json(ms: Seq<Seq<(Seq<char>, Seq<char>)>>) -> JsonView {
    JsonView::Array(ms.map_values(|m: Seq<(Seq<char>, Seq<char>)>| string_map_json(m)))
}

/// The payload sent to the model: model, provider and messages, then the
/// tools, the tool choice and the response format when they are given.
pub open spec fn payload_json(
    model: Seq<char>,
    messages: Seq<Seq<(Seq<char>, Seq<char>)>>,
    tool_choice: Option<ChoiceTool>,
    tools: Option<Seq<JsonView>>,
    response_format: Option<JsonView>,
) -> JsonView {
    let base = seq![
        ("model"@, JsonView::Str(model)),
        ("provider"@, provider_json()),
        ("messages"@, maps_json(messages)),
    ];
    let t = match tools {
        Some(ts) => seq![("tools"@, JsonView::Array(ts))],
        None => Seq::empty(),
    };
    let c = match tool_choice {
        Some(tc) => seq![("tool_choice"@, JsonView::Str(choice_tool_name(tc)))],
        None => Seq::empty(),
    };
    let f = match response_format {
        Some(rf) => seq![("response_format"@, rf)],
        None => Seq::empty(),
    };
    JsonView::Object(base + t + c + f)
}

/// Renders a list of string maps as a JSON array of objects.
pub fn maps_to_json(ms: &[StringMap]) -> (r: JsonValue)
    ensures
        r@ == maps_json(maps_view(ms@)),
{
    let mut items: Vec<JsonValue> = Vec::new();
    let mut i: usize = 0;
    while i < ms.len()
        invariant
            i <= ms@.len(),
            items@.len() == i,
            forall|k: int| 0 <= k < i ==> (#[trigger] items@[k])@ == string_map_json(ms@[k]@),
        decreases ms@.len() - i,
    {
        items.push(string_map_to_json(&ms[i]));
        i = i + 1;
    }
    let r = make_array(items);
    assert(items@.map_values(|x: JsonValue| x@) =~= maps_view(ms@).map_values(
        |m: Seq<(Seq<char>, Seq<char>)>| string_map_json(m),
    ));
    r
}

/// The API's name for a tool choice.
pub fn choice_tool_text(c: ChoiceTool) -> (r: String)
    ensures
        r@ == choice_tool_name(c),
{
    match c {
        ChoiceTool::NoTool => String::from_str("none"),
        ChoiceTool::Auto => String::from_str("auto"),
        ChoiceTool::Required => String::from_str("required"),
    }
}

/// Builds the payload sent to the model.
pub struct Payload {}

impl Payload {
    /// The payload: model, provider and messages, with the tools, the tool
    /// choice and the response format added when given.
    pub fn create_payload_with_or_without_tools_structout(
        model: &str,
        messages: &[StringMap],
        tool_choice: Option<ChoiceTool>,
        tools: Option<&[JsonValue]>,
        response_format: Option<&JsonValue>,
    ) -> (r: Result<JsonValue, AppError>)
        ensures
            r matches Ok(p) && p@ == payload_json(
                model@,
                maps_view(messages@),
                tool_choice,
                match tools {
                    Some(ts) => Some(jsons_view(ts@)),
                    None => None,
                },
                match response_format {
                    Some(f) => Some(f@),
                    None => None,
                },
            ),
    {
        let mut m: Vec<(String, JsonValue)> = Vec::new();
        let mut only: Vec<JsonValue> = Vec::new();
        only.push(json_str("Cerebras"));
        let only_arr = make_array(only);
        let mut provider: Vec<(String, JsonValue)> = Vec::new();
        provider.push((String::from_str("only"), only_arr));
        let provider_obj = make_object(provider);
        proof {
            assert(only@.map_values(|x: JsonValue| x@) =~= seq![JsonView::Str("Cerebras"@)]);
            assert(provider@.map_values(|p: (String, JsonValue)| (p.0@, p.1@)) =~= seq![
                ("only"@, JsonView::Array(seq![JsonView::Str("Cerebras"@)])),
            ]);
        }
        m.push((String::from_str("model"), json_str(model)));
        m.push((String::from_str("provider"), provider_obj));
        m.push((String::from_str("messages"), maps_to_json(messages)));
        let ghost base = m@.map_values(|p: (String, JsonValue)| (p.0@, p.1@));
        let ghost t: Seq<(Seq<char>, JsonView)> = Seq::empty();
        if let Some(tool_list) = tools {
            let arr = make_array(copy_jsons(tool_list));
            proof {
                t = seq![("tools"@, arr@)];
            }
            m.push((String::from_str("tools"), arr));
        }
        let ghost c: Seq<(Seq<char>, JsonView)> = Seq::empty();
        if let Some(choice) = tool_choice {
            let name = choice_tool_text(choice);
            proof {
                c = seq![("tool_choice"@, JsonView::Str(name@))];
            }
            m.push((String::from_str("tool_choice"), JsonValue::Str(name)));
        }
        let ghost f: Seq<(Seq<char>, JsonView)> = Seq::empty();
        if let Some(format_map) = response_format {
            let fv = format_map.copy_value();
            proof {
                f = seq![("response_format"@, fv@)];
            }
            m.push((String::from_str("response_format"), fv));
        }
        let r = make_object(m);
        assert(m@.map_values(|p: (String, JsonValue)| (p.0@, p.1@)) =~= base + t + c + f);
        proof {
            assert(base =~= seq![
                ("model"@, JsonView::Str(model@)),
                ("provider"@, provider_json()),
                ("messages"@, maps_json(maps_view(messages@))),
            ]);
            assert(t == match tools {
                Some(ts) => seq![("tools"@, JsonView::Array(jsons_view(ts@)))],
                None => Seq::<(Seq<char>, JsonView)>::empty(),
            });
            assert(c == match tool_choice {
                Some(tc) => seq![("tool_choice"@, JsonView::Str(choice_tool_name(tc)))],
                None => Seq::<(Seq<char>, JsonView)>::empty(),
            });
        }
        Ok(r)
    }
}

/// View of the `json_schema` part of a response format.
pub struct CallApiResponseFormatView {
    pub name: Seq<char>,
    pub strict: bool,
    pub schema: SchemaView,
}

/// The `json_schema` part of a response format: a name, whether the schema
/// is enforced, and the schema.
pub struct CallApiResponseFormat {
    pub name: String,
    pub strict: bool,
    pub schema: Schema,
}

impl View for CallApiResponseFormat {
    type V = CallApiResponseFormatView;

    open spec fn view(&self) -> CallApiResponseFormatView {
        CallApiResponseFormatView { name: self.name@, strict: self.strict, schema: self.schema@ }
    }
}

/// The JSON of the `json_schema` part: `{"name", "strict", "schema"}`.
pub open spec fn call_api_response_format_json(c: CallApiResponseFormatView) -> JsonView {
    JsonView::Object(
        seq![
            ("name"@, JsonView::Str(c.name)),
            ("strict"@, JsonView::Bool(c.strict)),
            ("schema"@, schema_json(c.schema)),
        ],
    )
}

impl CallApiResponseFormat {
    /// The JSON of this part.
    pub fn to_json(&self) -> (r: JsonValue)
        ensures
            r@ == call_api_response_format_json(self@),
    {
        let mut m: Vec<(String, JsonValue)> = Vec::new();
        m.push((String::from_str("name"), JsonValue::Str(self.name.clone())));
        m.push((String::from_str("strict"), JsonValue::Bool(self.strict)));
        m.push((String::from_str("schema"), self.schema.to_json()));
        let r = make_object(m);
        assert(m@.map_values(|p: (String, JsonValue)| (p.0@, p.1@)) =~= seq![
            ("name"@, JsonView::Str(self.name@)),
            ("strict"@, JsonView::Bool(self.strict)),
            ("schema"@, schema_json(self.schema@)),
        ]);
        r
    }
}

/// The response format asked of the model: `json_object`, or `json_schema`
/// with its schema part.
pub struct ResponseFormat {
    pub kind: String,
    pub schema: Option<CallApiResponseFormat>,
}

/// What `response_format_desired_as_map` gives for a format type and an optional schema part.
pub open spec fn response_format_result(kind: Seq<char>, schema: Option<CallApiResponseFormatView>) -> Result<
    JsonView,
    Seq<char>,
> {
    if kind == "json_object"@ {
        Ok(JsonView::Object(seq![("type"@, JsonView::Str("json_object"@))]))
    } else if kind == "json_schema"@ {
        match schema {
            Some(c) => Ok(
                JsonView::Object(
                    seq![
                        ("type"@, JsonView::Str("json_schema"@)),
                        ("json_schema"@, call_api_response_format_json(c)),
                    ],
                ),
            ),
            None => Err("Missing schema for json_schema format"@),
        }
    } else {
        Err("Unknown response format type"@)
    }
}

impl ResponseFormat {
    /// A `json_object` response format without schema.
    pub fn new() -> (r: ResponseFormat)
        ensures
            r.kind@ == "json_object"@,
            r.schema is None,
    {
        ResponseFormat { kind: json_object(), schema: None }
    }

    /// The response format as the API takes it; an `Agent` error for a
    /// `json_schema` format without schema and for an unknown type.
    pub fn response_format_desired_as_map(&self) -> (r: Result<JsonValue, AppError>)
        ensures
            match response_format_result(
                self.kind@,
                match self.schema {
                    Some(c) => Some(c@),
                    None => None,
                },
            ) {
                Ok(j) => r matches Ok(v) && v@ == j,
                Err(msg) => r matches Err(AppError::Agent(m)) && m@ == msg,
            },
    {
        if crate::text::str_eq(self.kind.as_str(), "json_object") {
            let mut m: Vec<(String, JsonValue)> = Vec::new();
            m.push((String::from_str("type"), JsonValue::Str(json_object())));
            let r = make_object(m);
            assert(m@.map_values(|p: (String, JsonValue)| (p.0@, p.1@)) =~= seq![
                ("type"@, JsonView::Str("json_object"@)),
            ]);
            Ok(r)
        } else if crate::text::str_eq(self.kind.as_str(), "json_schema") {
            match &self.schema {
                Some(call_api_response_format) => {
                    let mut m: Vec<(String, JsonValue)> = Vec::new();
                    m.push((String::from_str("type"), JsonValue::Str(json_schema())));
                    m.push((json_schema(), call_api_response_format.to_json()));
                    let r = make_object(m);
                    assert(m@.map_values(|p: (String, JsonValue)| (p.0@, p.1@)) =~= seq![
                        ("type"@, JsonView::Str("json_schema"@)),
                        ("json_schema"@, call_api_response_format_json(call_api_response_format@)),
                    ]);
                    Ok(r)
                },
                None => Err(AppError::Agent(String::from_str("Missing schema for json_schema format"))),
            }
        } else {
            Err(AppError::Agent(String::from_str("Unknown response format type")))
        }
    }
}

/// The schemas of every agent role.
#[allow(non_snake_case)]
pub struct StructOut {
    pub HumanRequestAnalyzerStructOut: Schema,
    pub MainAgentStructOut: Schema,
    pub PrAgentStructOut: Schema,
    pub Sre1StructOut: Schema,
    pub Sre2StructOut: Schema,
}

/// The schema that a role reads from the schemas of all roles.
pub open spec fn schema_of_role(s: StructOut, role: AgentRole) -> Option<SchemaView> {
    match role {
        AgentRole::RequestAnalyzer => Some(s.HumanRequestAnalyzerStructOut@),
        AgentRole::Main => Some(s.MainAgentStructOut@),
        AgentRole::Pr => Some(s.PrAgentStructOut@),
        AgentRole::Sre1 => Some(s.Sre1StructOut@),
        AgentRole::Sre2 => Some(s.Sre2StructOut@),
        AgentRole::Unassigned => None,
    }
}

/// The schemas by name, in the order of the fields.
pub open spec fn struct_out_entries(s: StructOut) -> Seq<(Seq<char>, SchemaView)> {
    seq![
        ("HumanRequestAnalyzerStructOut"@, s.HumanRequestAnalyzerStructOut@),
        ("MainAgentStructOut"@, s.MainAgentStructOut@),
        ("PrAgentStructOut"@, s.PrAgentStructOut@),
        ("Sre1StructOut"@, s.Sre1StructOut@),
        ("Sre2StructOut"@, s.Sre2StructOut@),
    ]
}

/// The schema that a dictionary of fields gives: each field with its type,
/// every field required.
pub open spec fn schema_from_fields(d: Seq<(Seq<char>, SchemaFieldType)>) -> SchemaView {
    SchemaView {
        kind: "object"@,
        properties: schema_properties(d),
        required: crate::keyed::keys_of(d),
        additional_properties: false,
    }
}

impl StructOut {
    /// The schemas of every role, copied.
    pub fn new(
        human_schema: &Schema,
        main_agent_schema: &Schema,
        pr_agent_schema: &Schema,
        sre1_schema: &Schema,
        sre2_schema: &Schema,
    ) -> (r: StructOut)
        ensures
            r.HumanRequestAnalyzerStructOut@ == human_schema@,
            r.MainAgentStructOut@ == main_agent_schema@,
            r.PrAgentStructOut@ == pr_agent_schema@,
            r.Sre1StructOut@ == sre1_schema@,
            r.Sre2StructOut@ == sre2_schema@,
    {
        StructOut {
            HumanRequestAnalyzerStructOut: human_schema.duplicate(),
            MainAgentStructOut: main_agent_schema.duplicate(),
            PrAgentStructOut: pr_agent_schema.duplicate(),
            Sre1StructOut: sre1_schema.duplicate(),
            Sre2StructOut: sre2_schema.duplicate(),
        }
    }

    /// The schema of a dictionary of fields: each field with its type, every field required.
    pub fn build_schema(schema_field_dict: &StrKeyed<SchemaFieldType>) -> (r: Schema)
        ensures
            r@ == schema_from_fields(schema_field_dict@),
    {
        let agent_field_dict = SchemaFieldDetails::create_schema_field(schema_field_dict);
        let mut fields: Vec<String> = Vec::new();
        let mut i: usize = 0;
        let n = schema_field_dict.len();
        while i < n
            invariant
                n == schema_field_dict@.len(),
                i <= n,
                fields@.len() == i,
                forall|k: int| 0 <= k < i ==> (#[trigger] fields@[k])@ == schema_field_dict@[k].0,
            decreases n - i,
        {
            let (k, _) = schema_field_dict.entry(i);
            fields.push(k.clone());
            i = i + 1;
        }
        assert(strings_view(fields@) =~= crate::keyed::keys_of(schema_field_dict@));
        Schema::new(&agent_field_dict, Some(&fields))
    }

    /// The schemas by name.
    pub fn get_full_struct_as_map(&self) -> (r: StrKeyed<Schema>)
        ensures
            r@ == struct_out_entries(*self),
    {
        proof {
            reveal_strlit("HumanRequestAnalyzerStructOut");
            reveal_strlit("MainAgentStructOut");
            reveal_strlit("PrAgentStructOut");
            reveal_strlit("Sre1StructOut");
            reveal_strlit("Sre2StructOut");
        }
        let mut m: StrKeyed<Schema> = StrKeyed::new();
        m.insert(String::from_str("HumanRequestAnalyzerStructOut"), self.HumanRequestAnalyzerStructOut.duplicate());
        m.insert(String::from_str("MainAgentStructOut"), self.MainAgentStructOut.duplicate());
        assert("MainAgentStructOut"@ != "HumanRequestAnalyzerStructOut"@) by {
            assert("MainAgentStructOut"@.len() != "HumanRequestAnalyzerStructOut"@.len());
        }
        m.insert(String::from_str("PrAgentStructOut"), self.PrAgentStructOut.duplicate());
        assert("PrAgentStructOut"@ != "HumanRequestAnalyzerStructOut"@ && "PrAgentStructOut"@ != "MainAgentStructOut"@) by {
            assert("PrAgentStructOut"@.len() != "HumanRequestAnalyzerStructOut"@.len());
            assert("PrAgentStructOut"@.len() != "MainAgentStructOut"@.len());
        }
        m.insert(String::from_str("Sre1StructOut"), self.Sre1StructOut.duplicate());
        assert("Sre1StructOut"@ != "HumanRequestAnalyzerStructOut"@ && "Sre1StructOut"@ != "MainAgentStructOut"@ && "Sre1StructOut"@ != "PrAgentStructOut"@) by {
            assert("Sre1StructOut"@.len() != "HumanRequestAnalyzerStructOut"@.len());
            assert("Sre1StructOut"@.len() != "MainAgentStructOut"@.len());
            assert("Sre1StructOut"@.len() != "PrAgentStructOut"@.len());
        }
        m.insert(String::from_str("Sre2StructOut"), self.Sre2StructOut.duplicate());
        assert("Sre2StructOut"@ != "HumanRequestAnalyzerStructOut"@ && "Sre2StructOut"@ != "MainAgentStructOut"@ && "Sre2StructOut"@ != "PrAgentStructOut"@ && "Sre2StructOut"@ != "Sre1StructOut"@) by {
            assert("Sre2StructOut"@.len() != "HumanRequestAnalyzerStructOut"@.len());
            assert("Sre2StructOut"@.len() != "MainAgentStructOut"@.len());
            assert("Sre2StructOut"@.len() != "PrAgentStructOut"@.len());
            assert("Sre2StructOut"@[3] != "Sre1StructOut"@[3]);
        }
        assert(m@ =~= struct_out_entries(*self));
        m
    }

    /// The schemas by name, each as its JSON.
    pub fn struct_out_to_json_map(struct_out: &StructOut) -> (r: JsonValue)
        ensures
            r@ == JsonView::Object(
                struct_out_entries(*struct_out).map_values(
                    |e: (Seq<char>, SchemaView)| (e.0, schema_json(e.1)),
                ),
            ),
    {
        let all = struct_out.get_full_struct_as_map();
        let mut members: Vec<(String, JsonValue)> = Vec::new();
        let mut i: usize = 0;
        let n = all.len();
        while i < n
            invariant
                n == all@.len(),
                i <= n,
                members@.len() == i,
                forall|k: int|
                    0 <= k < i ==> (#[trigger] members@[k]).0@ == all@[k].0 && members@[k].1@
                        == schema_json(all@[k].1),
            decreases n - i,
        {
            let (name, schema) = all.entry(i);
            members.push((name.clone(), schema.to_json()));
            i = i + 1;
        }
        let r = make_object(members);
        assert(members@.map_values(|p: (String, JsonValue)| (p.0@, p.1@)) =~= all@.map_values(
            |e: (Seq<char>, SchemaView)| (e.0, schema_json(e.1)),
        ));
        r
    }

    /// The schema of a role; none for an unassigned role.
    pub fn get_by_role(&self, role: &AgentRole) -> (r: Option<&Schema>)
        ensures
            match schema_of_role(*self, *role) {
                Some(v) => r matches Some(s) && s@ == v,
                None => r is None,
            },
    {
        match role {
            AgentRole::RequestAnalyzer => Some(&self.HumanRequestAnalyzerStructOut),
            AgentRole::Main => Some(&self.MainAgentStructOut),
            AgentRole::Pr => Some(&self.PrAgentStructOut),
            AgentRole::Sre1 => Some(&self.Sre1StructOut),
            AgentRole::Sre2 => Some(&self.Sre2StructOut),
            _ => None,
        }
    }
}

/// View of an agent.
pub struct AgentView {
    pub role: AgentRole,
    pub communication_message: JsonView,
    pub prompt: MessagesSentView,
    pub structured_output: SchemaView,
    pub task_state: TaskCompletion,
    pub llm: ModelSettingsView,
}

/// An agent: its role, what it tells the others, its prompt, its output
/// schema, where it is in its task and its model settings.
pub struct Agent {
    pub role: AgentRole,
    pub communication_message: JsonValue,
    pub prompt: MessagesSent,
    pub structured_output: Schema,
    pub task_state: TaskCompletion,
    pub llm: ModelSettings,
}

impl View for Agent {
    type V = AgentView;

    open spec fn view(&self) -> AgentView {
        AgentView {
            role: self.role,
            communication_message: self.communication_message@,
            prompt: self.prompt@,
            structured_output: self.structured_output@,
            task_state: self.task_state,
            llm: self.llm@,
        }
    }
}

/// An agent once each given part replaces the old one.
pub open spec fn agent_updated(
    a: AgentView,
    role: Option<AgentRole>,
    communication_message: Option<JsonView>,
    prompt: Option<MessagesSentView>,
    structured_output: Option<SchemaView>,
    task_state: Option<TaskCompletion>,
    llm: Option<ModelSettingsView>,
) -> AgentView {
    AgentView {
        role: or_keep(role, a.role),
        communication_message: or_keep(communication_message, a.communication_message),
        prompt: or_keep(prompt, a.prompt),
        structured_output: or_keep(structured_output, a.structured_output),
        task_state: or_keep(task_state, a.task_state),
        llm: or_keep(llm, a.llm),
    }
}

impl Agent {
    /// An agent built from copies of its parts.
    pub fn new(
        agent_role: &AgentRole,
        agent_communication_message_to_others: &JsonValue,
        agent_prompt_from_file: &MessagesSent,
        agent_strutured_output: &Schema,
        agent_task_state: &TaskCompletion,
        agent_llm: &ModelSettings,
    ) -> (r: Result<Agent, AppError>)
        ensures
            r matches Ok(a) && a@ == (AgentView {
                role: *agent_role,
                communication_message: agent_communication_message_to_others@,
                prompt: agent_prompt_from_file@,
                structured_output: agent_strutured_output@,
                task_state: *agent_task_state,
                llm: agent_llm@,
            }),
    {
        Ok(
            Agent {
                role: *agent_role,
                communication_message: agent_communication_message_to_others.copy_value(),
                prompt: agent_prompt_from_file.duplicate(),
                structured_output: agent_strutured_output.duplicate(),
                task_state: *agent_task_state,
                llm: agent_llm.duplicate(),
            },
        )
    }

    /// Replaces each part that is given and keeps the others.
    pub fn update_agent(
        &mut self,
        agent_role: Option<&AgentRole>,
        agent_communication_message_to_others: Option<&JsonValue>,
        agent_prompt_from_file: Option<&MessagesSent>,
        agent_structured_output: Option<&Schema>,
        agent_task_state: Option<&TaskCompletion>,
        agent_llm: Option<&ModelSettings>,
    ) -> (r: Result<String, AppError>)
        ensures
            r matches Ok(m) && m@ == "Agent Field(s) Updated!"@,
            final(self)@ == agent_updated(
                old(self)@,
                match agent_role {
                    Some(v) => Some(*v),
                    None => None,
                },
                match agent_communication_message_to_others {
                    Some(v) => Some(v@),
                    None => None,
                },
                match agent_prompt_from_file {
                    Some(v) => Some(v@),
                    None => None,
                },
                match agent_structured_output {
                    Some(v) => Some(v@),
                    None => None,
                },
                match agent_task_state {
                    Some(v) => Some(*v),
                    None => None,
                },
                match agent_llm {
                    Some(v) => Some(v@),
                    None => None,
                },
            ),
    {
        if let Some(value) = agent_role {
            self.role = *value;
        }
        if let Some(dict) = agent_communication_message_to_others {
            self.communication_message = dict.copy_value();
        }
        if let Some(value) = agent_prompt_from_file {
            self.prompt = value.duplicate();
        }
        if let Some(value) = agent_structured_output {
            self.structured_output = value.duplicate();
        }
        if let Some(value) = agent_task_state {
            self.task_state = *value;
        }
        if let Some(value) = agent_llm {
            self.llm = value.duplicate();
        }
        Ok(String::from_str("Agent Field(s) Updated!"))
    }
}

/// The tasks identified for each worker agent.
pub struct TasksIdentified {
    pub sre1: String,
    pub sre2: String,
}

impl TasksIdentified {
    /// The tasks; an agent without task gets the empty text.
    pub fn new(sre1_task: Option<&str>, sre2_task: Option<&str>) -> (r: Self)
        ensures
            r.sre1@ == updated_text(sre1_task, Seq::empty()),
            r.sre2@ == updated_text(sre2_task, Seq::empty()),
    {
        let sre1_duty = match sre1_task {
            Some(value) => value.to_owned(),
            None => String::new(),
        };
        let sre2_duty = match sre2_task {
            Some(value) => value.to_owned(),
            None => String::new(),
        };
        TasksIdentified { sre1: sre1_duty, sre2: sre2_duty }
    }

    /// Replaces each task that is given, keeps the others, and returns a copy of the result.
    pub fn update_task(&mut self, sre1_task: Option<&str>, sre2_task: Option<&str>) -> (r: Result<
        Self,
        AppError,
    >)
        ensures
            final(self).sre1@ == updated_text(sre1_task, old(self).sre1@),
            final(self).sre2@ == updated_text(sre2_task, old(self).sre2@),
            r matches Ok(t) && t.sre1@ == final(self).sre1@ && t.sre2@ == final(self).sre2@,
    {
        if let Some(value) = sre1_task {
            self.sre1 = value.to_owned();
        }
        if let Some(value) = sre2_task {
            self.sre2 = value.to_owned();
        }
        Ok(TasksIdentified { sre1: self.sre1.clone(), sre2: self.sre2.clone() })
    }
}


/// The senders of a prompt map never repeat.
pub open spec fn distinct_senders(s: Seq<(UserType, Seq<char>)>) -> bool {
    forall|i: int, j: int| 0 <= i < j < s.len() ==> #[trigger] s[i].0 != #[trigger] s[j].0
}

/// A prompt template: texts by sender (the library's stand-in for a
/// `HashMap<UserType, &str>`), in insertion order.
pub struct PromptMap {
    entries: Vec<(UserType, String)>,
}

impl View for PromptMap {
    type V = Seq<(UserType, Seq<char>)>;

    closed spec fn view(&self) -> Seq<(UserType, Seq<char>)> {
        self.entries@.map_values(|p: (UserType, String)| (p.0, p.1@))
    }
}

impl PromptMap {
    #[verifier::type_invariant]
    closed spec fn senders_are_distinct(self) -> bool {
        distinct_senders(self@)
    }

    /// A template with one text.
    pub fn single(sender: UserType, text: &str) -> (r: PromptMap)
        ensures
            r@ == seq![(sender, text@)],
    {
        let mut entries: Vec<(UserType, String)> = Vec::new();
        entries.push((sender, text.to_owned()));
        assert(entries@.map_values(|p: (UserType, String)| (p.0, p.1@)) =~= seq![(sender, text@)]);
        PromptMap { entries }
    }

    /// The number of texts.
    pub fn len(&self) -> (r: usize)
        ensures
            r == self@.len(),
    {
        self.entries.len()
    }

    /// The sender and text of the `i`-th entry.
    pub fn entry(&self, i: usize) -> (r: (UserType, &String))
        requires
            i < self@.len(),
        ensures
            r.0 == self@[i as int].0,
            r.1@ == self@[i as int].1,
    {
        (self.entries[i].0, &self.entries[i].1)
    }

    /// The text of a sender (`prompt[&sender]`), if present.
    pub fn get(&self, sender: UserType) -> (r: Option<&String>)
        ensures
            match r {
                Some(t) => exists|i: int| 0 <= i < self@.len() && self@[i] == (sender, t@),
                None => forall|i: int| 0 <= i < self@.len() ==> self@[i].0 != sender,
            },
    {
        let mut i: usize = 0;
        while i < self.entries.len()
            invariant
                i <= self.entries@.len(),
                forall|k: int| 0 <= k < i ==> self@[k].0 != sender,
            decreases self.entries@.len() - i,
        {
            if self.entries[i].0 == sender {
                assert(self@[i as int] == (sender, self.entries@[i as int].1@));
                return Some(&self.entries[i].1);
            }
            i = i + 1;
        }
        None
    }
}

} // verus!
