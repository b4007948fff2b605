//! Machines (constructors over the agent structures) and engines (the steps
//! that build prompts, schemas, tools, settings, agents and payloads), with
//! the decisions of the model-calling loops. The calls to the model are made
//! by the caller, which hands the answers back to these steps.
use vstd::prelude::*;
use crate::core_engine::agents::{
    Agent, AgentRole, AgentView, CallApiResponseFormat, CallApiResponseFormatView, ChoiceTool,
    Function, FunctionDetails, LlmResponse, MessageHistory, MessageToAppend, MessageView,
    MessagesSent, ModelSettings, ModelSettingsView, Payload, PromptMap, ResponseFormat, Schema,
    SchemaFieldType, StringMap, StructOut, TaskCompletion, ToolCall, Tools, UserType, copy_jsons,
    function_details_json, function_parameters, function_part_json, history_after_append,
    history_json, jsons_view, map_of_two, maps_view, payload_json, response_format_result,
    schema_from_fields, schema_of_role, user_type_name,
};
use crate::core_engine::errors::AppError;
use crate::json::{
    JsonValue, JsonView, json_get_str, make_object, json_parse, json_text, json_to_text, parse_json,
    json_set,
};
use crate::keyed::{Duplicate, StrKeyed};
use crate::text::{decimal, usize_to_text, str_eq};

verus! {

// -------------------- machines --------------------

/// A prompt `{role, content}` from a sender and a text.
pub fn machine_prompt(role: &UserType, content: &str) -> (r: Result<MessagesSent, AppError>)
    ensures
        r matches Ok(m) && m.user_type@ == user_type_name(*role) && m.content@ == content@,
{
    Ok(MessagesSent::create_new_message_struct_to_send(role, content))
}

/// An agent from its parts.
pub fn machine_agent(
    role: AgentRole,
    message: &JsonValue,
    prompt: &MessagesSent,
    struct_out: &Schema,
    task_state: TaskCompletion,
    llm_settings: &ModelSettings,
) -> (r: Result<Agent, AppError>)
    ensures
        r matches Ok(a) && a@ == (AgentView {
            role: role,
            communication_message: message@,
            prompt: prompt@,
            structured_output: struct_out@,
            task_state: task_state,
            llm: llm_settings@,
        }),
{
    let agent = Agent::new(&role, message, prompt, struct_out, &task_state, llm_settings)?;
    Ok(agent)
}

/// The view of optional tools.
pub open spec fn opt_tools_view(tools: Option<&[JsonValue]>) -> Option<Seq<JsonView>> {
    match tools {
        Some(ts) => Some(jsons_view(ts@)),
        None => None,
    }
}

/// The view of an optional response format.
pub open spec fn opt_json_view(f: Option<&JsonValue>) -> Option<JsonView> {
    match f {
        Some(j) => Some(j@),
        None => None,
    }
}

/// The payload sent to the model, with or without tools and response format.
pub fn machine_create_payload_with_or_without_tools_structout(
    model: &str,
    messages: &[StringMap],
    tool_choice: Option<ChoiceTool>,
    tools: Option<&[JsonValue]>,
    response_format: Option<&JsonValue>,
) -> (r: Result<JsonValue, AppError>)
    ensures
        r matches Ok(p) && p@ == payload_json(
            model@,
            maps_view(messages@),
            tool_choice,
            opt_tools_view(tools),
            opt_json_view(response_format),
        ),
{
    match Payload::create_payload_with_or_without_tools_structout(
        model,
        messages,
        tool_choice,
        tools,
        response_format,
    ) {
        Ok(json_value) => Ok(json_value),
        Err(e) => Err(
            AppError::Payload(
                String::from_str(
                    "An error occured while trying to create the payload to send: ",
                ).concat(e.to_display_string().as_str()),
            ),
        ),
    }
}

/// A reply of the model's API must succeed: an `Agent` error carrying the
/// status and the body otherwise.
pub fn check_api_status(success: bool, status: &str, body: &str) -> (r: Result<(), AppError>)
    ensures
        success ==> r is Ok,
        !success ==> (r matches Err(AppError::Agent(m)) && m@ == "HTTP Error: "@ + status@ + " - Body: "@
            + body@),
{
    if success {
        Ok(())
    } else {
        Err(AppError::Agent(String::from_str("HTTP Error: ").concat(status).concat(" - Body: ").concat(body)))
    }
}

/// The tool calls of the first choice of an answer, if it has them.
pub open spec fn first_choice_tool_calls(resp: LlmResponse) -> Option<Vec<ToolCall>> {
    if resp.choices@.len() == 0 {
        None
    } else {
        resp.choices@[0].message.tool_calls
    }
}

/// The tool calls of the answer's first choice (`None` when there is no
/// choice or the choice calls no tool).
pub fn machine_api_response(llm_response: &LlmResponse) -> (r: Option<&Vec<ToolCall>>)
    ensures
        match first_choice_tool_calls(*llm_response) {
            Some(v) => r matches Some(x) && *x == v,
            None => r is None,
        },
{
    if llm_response.choices.len() == 0 {
        None
    } else {
        match &llm_response.choices[0].message.tool_calls {
            Some(v) => Some(v),
            None => None,
        }
    }
}

/// Appends a message to the history and returns the history's JSON.
pub fn machine_history_update(history: &mut MessageHistory, new_message: &MessageToAppend) -> (r:
    Result<JsonValue, AppError>)
    ensures
        final(history)@ == history_after_append(old(history)@, new_message@),
        r matches Ok(j) && j@ == history_json(final(history)@),
{
    let message = match history.append_message_to_history(new_message) {
        Ok(m) => m,
        Err(e) => {
            return Err(
                AppError::HistoryUpdate(
                    String::from_str("Error updating history: ").concat(
                        e.to_display_string().as_str(),
                    ),
                ),
            );
        },
    };
    Ok(message)
}

/// The text of the answer's first choice, if it has one.
pub open spec fn first_choice_content(resp: LlmResponse) -> Option<Seq<char>> {
    if resp.choices@.len() == 0 {
        None
    } else {
        match resp.choices@[0].message.content {
            Some(c) => Some(c@),
            None => None,
        }
    }
}

/// The final answer: the text of the first choice (`None` when there is no
/// choice or it has no text).
pub fn machine_final_answer(llm_response: &LlmResponse) -> (r: Option<String>)
    ensures
        match first_choice_content(*llm_response) {
            Some(c) => r matches Some(s) && s@ == c,
            None => r is None,
        },
{
    if llm_response.choices.len() == 0 {
        None
    } else {
        match &llm_response.choices[0].message.content {
            Some(c) => Some(c.clone()),
            None => None,
        }
    }
}

/// View of a tool run that a tool call asks for.
pub enum ToolRequestView {
    ReadFile { file_path: Seq<char> },
    WriteFile { file_path: Seq<char>, yaml_manifest_content: Seq<char> },
}

/// A tool run that a tool call asks for: the caller runs it on the file system.
pub enum ToolRequest {
    ReadFile { file_path: String },
    WriteFile { file_path: String, yaml_manifest_content: String },
}

impl View for ToolRequest {
    type V = ToolRequestView;

    open spec fn view(&self) -> ToolRequestView {
        match self {
            ToolRequest::ReadFile { file_path } => ToolRequestView::ReadFile { file_path: file_path@ },
            ToolRequest::WriteFile { file_path, yaml_manifest_content } => ToolRequestView::WriteFile {
                file_path: file_path@,
                yaml_manifest_content: yaml_manifest_content@,
            },
        }
    }
}

/// The arguments of a tool call: a JSON text is parsed, any other value is taken as it is.
pub open spec fn tool_arguments(arguments: JsonView) -> Result<JsonView, Seq<char>> {
    match arguments {
        JsonView::Str(s) => match json_parse(s) {
            Ok(v) => Ok(v),
            Err(e) => Err("Failed to parse arguments JSON string: "@ + e),
        },
        other => Ok(other),
    }
}

/// The tool run that a call of `tool_name` with `arguments` asks for, or the
/// message of the error.
pub open spec fn planned_tool(tool_name: Seq<char>, arguments: JsonView) -> Result<ToolRequestView, Seq<char>> {
    match tool_arguments(arguments) {
        Err(e) => Err(e),
        Ok(args) => if tool_name == "read_file_tool"@ {
            match json_get_str(args, "file_path"@) {
                Some(p) => Ok(ToolRequestView::ReadFile { file_path: p }),
                None => Err("Missing `file_path` argument for `read_file_tool`"@),
            }
        } else if tool_name == "write_file_tool"@ {
            match json_get_str(args, "file_path"@) {
                None => Err("Missing `file_path` argument for `write_file_tool`"@),
                Some(p) => match json_get_str(args, "yaml_manifest_content"@) {
                    Some(c) => Ok(ToolRequestView::WriteFile { file_path: p, yaml_manifest_content: c }),
                    None => Err("Missing `yaml_manifest_content` argument for `write_file_tool`"@),
                },
            }
        } else {
            Err("Unknown tool name: "@ + tool_name)
        },
    }
}

/// Reads a tool call: which tool to run on which arguments; an
/// `ExecuteToolEngine` error when the arguments do not parse, when one is
/// missing, or when the tool is unknown.
pub fn plan_tool_execution(tool_name: &str, arguments: &JsonValue) -> (r: Result<ToolRequest, AppError>)
    ensures
        match planned_tool(tool_name@, arguments@) {
            Ok(req) => r matches Ok(x) && x@ == req,
            Err(msg) => r matches Err(AppError::ExecuteToolEngine(m)) && m@ == msg,
        },
{
    let parsed_args: JsonValue = match arguments {
        JsonValue::Str(json_str) => match parse_json(json_str.as_str()) {
            Ok(v) => v,
            Err(e) => {
                return Err(
                    AppError::ExecuteToolEngine(
                        String::from_str("Failed to parse arguments JSON string: ").concat(e.as_str()),
                    ),
                );
            },
        },
        other => other.copy_value(),
    };
    assert(tool_arguments(arguments@) == Ok::<JsonView, Seq<char>>(parsed_args@));
    if str_eq(tool_name, "read_file_tool") {
        match parsed_args.get_str("file_path") {
            Some(p) => Ok(ToolRequest::ReadFile { file_path: p }),
            None => Err(
                AppError::ExecuteToolEngine(
                    String::from_str("Missing `file_path` argument for `read_file_tool`"),
                ),
            ),
        }
    } else if str_eq(tool_name, "write_file_tool") {
        match parsed_args.get_str("file_path") {
            None => Err(
                AppError::ExecuteToolEngine(
                    String::from_str("Missing `file_path` argument for `write_file_tool`"),
                ),
            ),
            Some(p) => match parsed_args.get_str("yaml_manifest_content") {
                Some(c) => Ok(ToolRequest::WriteFile { file_path: p, yaml_manifest_content: c }),
                None => Err(
                    AppError::ExecuteToolEngine(
                        String::from_str(
                            "Missing `yaml_manifest_content` argument for `write_file_tool`",
                        ),
                    ),
                ),
            },
        }
    } else {
        Err(
            AppError::ExecuteToolEngine(
                String::from_str("Unknown tool name: ").concat(tool_name),
            ),
        )
    }
}

/// `{"output": <the tool's text>}`: what a tool run adds to the history.
pub fn tool_output(text: &str) -> (r: JsonValue)
    ensures
        r@ == JsonView::Object(seq![("output"@, JsonView::Str(text@))]),
{
    let mut m: Vec<(String, JsonValue)> = Vec::new();
    m.push((String::from_str("output"), JsonValue::Str(text.to_owned())));
    let r = make_object(m);
    assert(m@.map_values(|p: (String, JsonValue)| (p.0@, p.1@)) =~= seq![
        ("output"@, JsonView::Str(text@)),
    ]);
    r
}

// -------------------- engines --------------------

/// A prompt `{content, role}` ready to send.
pub fn engine_prompt(role: &UserType, content: &str) -> (r: Result<StringMap, AppError>)
    ensures
        r matches Ok(m) && m@ == seq![("content"@, content@), ("role"@, user_type_name(*role))],
{
    let agent_struct_prompt = machine_prompt(role, content)?;
    let agent_prompt = agent_struct_prompt.format_new_message_to_send();
    Ok(agent_prompt)
}

/// The schemas of every role, each built from its fields.
pub fn create_schemas_engine(
    human_schema_initial_hasmap: StrKeyed<SchemaFieldType>,
    main_schema_initial_hasmap: StrKeyed<SchemaFieldType>,
    pr_schema_initial_hasmap: StrKeyed<SchemaFieldType>,
    sre1_schema_initial_hasmap: StrKeyed<SchemaFieldType>,
    sre2_schema_initial_hasmap: StrKeyed<SchemaFieldType>,
) -> (r: Result<StructOut, AppError>)
    ensures
        r matches Ok(s) && s.HumanRequestAnalyzerStructOut@ == schema_from_fields(
            human_schema_initial_hasmap@,
        ) && s.MainAgentStructOut@ == schema_from_fields(main_schema_initial_hasmap@)
            && s.PrAgentStructOut@ == schema_from_fields(pr_schema_initial_hasmap@)
            && s.Sre1StructOut@ == schema_from_fields(sre1_schema_initial_hasmap@)
            && s.Sre2StructOut@ == schema_from_fields(sre2_schema_initial_hasmap@),
{
    let human_schema = StructOut::build_schema(&human_schema_initial_hasmap);
    let main_schema = StructOut::build_schema(&main_schema_initial_hasmap);
    let pr_schema = StructOut::build_schema(&pr_schema_initial_hasmap);
    let sre1_schema = StructOut::build_schema(&sre1_schema_initial_hasmap);
    let sre2_schema = StructOut::build_schema(&sre2_schema_initial_hasmap);
    Ok(StructOut::new(&human_schema, &main_schema, &pr_schema, &sre1_schema, &sre2_schema))
}

/// The schema of a role; a `GetSchemaEngine` error for an unassigned role.
pub fn get_specific_agent_schema_engine(full_struct_out: &StructOut, agent_role: &AgentRole) -> (r:
    Result<Schema, AppError>)
    ensures
        match schema_of_role(*full_struct_out, *agent_role) {
            Some(v) => r matches Ok(s) && s@ == v,
            None => r matches Err(AppError::GetSchemaEngine(m)) && m@ == "get specific agent schema error"@,
        },
{
    if let Some(target_schema) = full_struct_out.get_by_role(agent_role) {
        Ok(target_schema.duplicate())
    } else {
        Err(AppError::GetSchemaEngine(String::from_str("get specific agent schema error")))
    }
}

/// The tool object that a function name, a description and parameter settings give.
pub open spec fn tool_json(
    fn_name: Seq<char>,
    fn_description: Seq<char>,
    param_settings: Seq<Seq<(Seq<char>, Seq<char>)>>,
) -> JsonView {
    function_part_json(
        function_details_json(fn_name, true, fn_description, function_parameters(param_settings)),
    )
}

/// Adds a function tool (strict) to the agent's tools and returns a copy of them.
pub fn create_tool_engine(
    agent_tools: &mut Tools,
    fn_name: &str,
    fn_description: &str,
    param_settings: &[StringMap],
) -> (r: Result<Tools, AppError>)
    ensures
        jsons_view(final(agent_tools).tools@) == jsons_view(old(agent_tools).tools@).push(
            tool_json(fn_name@, fn_description@, maps_view(param_settings@)),
        ),
        r matches Ok(t) && jsons_view(t.tools@) == jsons_view(final(agent_tools).tools@),
{
    let function_details = FunctionDetails::new(fn_name, true, fn_description, param_settings)?;
    let function = Function::create_function_part(&function_details)?;
    let mut one: Vec<JsonValue> = Vec::new();
    one.push(function);
    agent_tools.add_function_tool(one.as_slice())?;
    assert(jsons_view(one@) =~= seq![tool_json(fn_name@, fn_description@, maps_view(param_settings@))]);
    Ok(Tools { tools: copy_jsons(agent_tools.tools.as_slice()) })
}

/// The sender and text of a prompt template: its last entry, or an empty
/// assistant prompt when it has none.
pub open spec fn prompt_user_and_content(p: Seq<(UserType, Seq<char>)>) -> (UserType, Seq<char>) {
    if p.len() == 0 {
        (UserType::Assistant, Seq::empty())
    } else {
        p.last()
    }
}

/// The sender and the text of a prompt template.
pub fn get_prompt_user_and_content_engine(prompt: &PromptMap) -> (r: Result<(UserType, String), AppError>)
    ensures
        r matches Ok(t) && (t.0, t.1@) == prompt_user_and_content(prompt@),
{
    let mut type_user = UserType::Assistant;
    let mut content = String::new();
    let mut i: usize = 0;
    while i < prompt.len()
        invariant
            i <= prompt@.len(),
            (type_user, content@) == prompt_user_and_content(prompt@.take(i as int)),
        decreases prompt@.len() - i,
    {
        let (t, c) = prompt.entry(i);
        type_user = t;
        content = c.clone();
        i = i + 1;
    }
    assert(prompt@.take(prompt@.len() as int) =~= prompt@);
    Ok((type_user, content))
}

/// A message `{content, role}` ready to send.
pub fn messages_format_engine(type_user: &UserType, content: &str) -> (r: Result<StringMap, AppError>)
    ensures
        r matches Ok(m) && m@ == seq![("content"@, content@), ("role"@, user_type_name(*type_user))],
{
    let agent_message = MessagesSent::create_new_message_struct_to_send(type_user, content);
    Ok(agent_message.format_new_message_to_send())
}

/// Model settings with the given tools and no message.
pub fn create_model_settings_engine(
    model_name: &str,
    model_max_completion: u64,
    model_temperature: u64,
    list_tools: &[JsonValue],
) -> (r: Result<ModelSettings, AppError>)
    ensures
        r matches Ok(s) && s@ == (ModelSettingsView {
            name: model_name@,
            max_completion: model_max_completion,
            temperature: model_temperature,
            message: Seq::empty(),
            tool_choice: ChoiceTool::Auto,
            tools: Some(jsons_view(list_tools@)),
            kind: "function"@,
        }),
{
    let no_message: Vec<StringMap> = Vec::new();
    let s = ModelSettings::initialize_model_settings_with_tools(
        model_name,
        model_max_completion,
        model_temperature,
        no_message.as_slice(),
        list_tools,
    );
    assert(maps_view(no_message@) =~= Seq::<Seq<(Seq<char>, Seq<char>)>>::empty());
    Ok(s)
}

/// An agent from its parts.
pub fn create_agent_engine(
    role: AgentRole,
    message: &JsonValue,
    prompt: &MessagesSent,
    struct_out: &Schema,
    task_state: TaskCompletion,
    llm_settings: &ModelSettings,
) -> (r: Result<Agent, AppError>)
    ensures
        r matches Ok(a) && a@ == (AgentView {
            role: role,
            communication_message: message@,
            prompt: prompt@,
            structured_output: struct_out@,
            task_state: task_state,
            llm: llm_settings@,
        }),
{
    let new_agent = machine_agent(role, message, prompt, struct_out, task_state, llm_settings)?;
    Ok(new_agent)
}

/// The payload sent to the model.
pub fn create_payload_engine(
    model: &str,
    messages: &[StringMap],
    tool_choice: Option<ChoiceTool>,
    tools: Option<&[JsonValue]>,
    response_format: Option<&JsonValue>,
) -> (r: Result<JsonValue, AppError>)
    ensures
        r matches Ok(p) && p@ == payload_json(
            model@,
            maps_view(messages@),
            tool_choice,
            opt_tools_view(tools),
            opt_json_view(response_format),
        ),
{
    let payload = machine_create_payload_with_or_without_tools_structout(
        model,
        messages,
        tool_choice,
        tools,
        response_format,
    )?;
    Ok(payload)
}

/// The map sent for a message of the history: role and content, and the
/// tool call id when there is one.
pub open spec fn history_message_map(m: MessageView) -> Seq<(Seq<char>, Seq<char>)> {
    let base = seq![("role"@, m.role), ("content"@, m.content)];
    if m.tool_call_id.len() == 0 {
        base
    } else {
        base.push(("tool_call_id"@, m.tool_call_id))
    }
}

/// The messages sent for a history, oldest first.
pub fn messages_from_history(history: &MessageHistory) -> (r: Vec<StringMap>)
    ensures
        maps_view(r@) == history@.map_values(|m: MessageView| history_message_map(m)),
{
    proof {
        reveal_strlit("role");
        reveal_strlit("content");
        reveal_strlit("tool_call_id");
        assert("role"@.len() != "content"@.len());
        assert("tool_call_id"@.len() != "content"@.len());
        assert("tool_call_id"@.len() != "role"@.len());
    }
    let mut out: Vec<StringMap> = Vec::new();
    let mut i: usize = 0;
    while i < history.messages.len()
        invariant
            i <= history.messages@.len(),
            out@.len() == i,
            "role"@ != "content"@,
            "tool_call_id"@ != "content"@,
            "tool_call_id"@ != "role"@,
            forall|k: int| 0 <= k < i ==> (#[trigger] out@[k])@ == history_message_map(history.messages@[k]@),
        decreases history.messages@.len() - i,
    {
        let m = &history.messages[i];
        let mut map = map_of_two("role", m.role.clone(), "content", m.content.clone());
        if m.tool_call_id.as_str().unicode_len() != 0 {
            map.insert(String::from_str("tool_call_id"), m.tool_call_id.clone());
            assert(map@ =~= history_message_map(m@));
        }
        out.push(map);
        i = i + 1;
    }
    assert(maps_view(out@) =~= history@.map_values(|m: MessageView| history_message_map(m)));
    out
}

/// The payload of the next round once a tool has answered: the history with
/// the tool's message appended, no tool choice, the given tools and response format.
pub open spec fn next_round_payload(
    model: Seq<char>,
    history: Seq<MessageView>,
    tools: Option<Seq<JsonView>>,
    response_format: Option<JsonView>,
) -> JsonView {
    payload_json(
        model,
        history.map_values(|m: MessageView| history_message_map(m)),
        None,
        tools,
        response_format,
    )
}

/// The message that a tool's output adds to the history.
pub open spec fn tool_message(output: JsonView, tool_call_id: Seq<char>) -> MessageView {
    MessageView { role: "tool"@, content: json_text(output), tool_call_id: tool_call_id }
}

/// After a tool has run: appends its output (as JSON text) to the history as a
/// `tool` message answering the call, and builds the next payload from the history.
pub fn tool_round_payload(
    history: &mut MessageHistory,
    model: &str,
    output: &JsonValue,
    tool_call_id: &str,
    tools: Option<&[JsonValue]>,
    response_format: Option<&JsonValue>,
) -> (r: Result<JsonValue, AppError>)
    ensures
        final(history)@ == history_after_append(old(history)@, tool_message(output@, tool_call_id@)),
        r matches Ok(p) && p@ == next_round_payload(
            model@,
            final(history)@,
            opt_tools_view(tools),
            opt_json_view(response_format),
        ),
{
    let text = json_to_text(output);
    let tool_response = MessageToAppend::new("tool", text.as_str(), tool_call_id);
    match history.append_message_to_history(&tool_response) {
        Ok(_) => {},
        Err(e) => {
            return Err(e);
        },
    }
    let new_messages = messages_from_history(history);
    machine_create_payload_with_or_without_tools_structout(
        model,
        new_messages.as_slice(),
        None,
        tools,
        response_format,
    )
}

/// The guard of the loop that calls the model until it stops calling tools:
/// an `Agent` error once `max_loop` rounds have run.
pub fn tool_or_not_loop_guard(loop_counter: usize, max_loop: usize) -> (r: Result<(), AppError>)
    ensures
        loop_counter < max_loop ==> r is Ok,
        loop_counter >= max_loop ==> (r matches Err(AppError::Agent(m)) && m@
            == "Reached max tool loop iteration: "@ + decimal(max_loop as nat)),
{
    if loop_counter >= max_loop {
        Err(
            AppError::Agent(
                String::from_str("Reached max tool loop iteration: ").concat(
                    usize_to_text(max_loop).as_str(),
                ),
            ),
        )
    } else {
        Ok(())
    }
}

/// The guard of the loop that runs tools until a final answer: an `Agent`
/// error once `max_loop` rounds have run.
pub fn tool_loop_until_final_answer_guard(loop_counter: usize, max_loop: usize) -> (r: Result<
    (),
    AppError,
>)
    ensures
        loop_counter < max_loop ==> r is Ok,
        loop_counter >= max_loop ==> (r matches Err(AppError::Agent(m)) && m@
            == "Max tool loop reached: "@ + decimal(max_loop as nat)),
{
    if loop_counter >= max_loop {
        Err(
            AppError::Agent(
                String::from_str("Max tool loop reached: ").concat(usize_to_text(max_loop).as_str()),
            ),
        )
    } else {
        Ok(())
    }
}

/// The tool call that the answer asks to run: the first call of its first
/// choice; `None` when the answer is final.
pub fn next_tool_call(llm_response: &LlmResponse) -> (r: Option<&ToolCall>)
    ensures
        match first_choice_tool_calls(*llm_response) {
            Some(v) => if v@.len() == 0 {
                r is None
            } else {
                r matches Some(c) && *c == v@[0]
            },
            None => r is None,
        },
{
    match machine_api_response(llm_response) {
        Some(tool_calls) => {
            if tool_calls.len() == 0 {
                None
            } else {
                Some(&tool_calls[0])
            }
        },
        None => None,
    }
}

/// Ends the loop that calls the model until it stops calling tools: the
/// final answer's text; an `Agent` error when the answer has no text.
pub fn tool_or_not_final_answer(final_response: &LlmResponse) -> (r: Result<String, AppError>)
    ensures
        match first_choice_content(*final_response) {
            Some(c) => r matches Ok(s) && s@ == c,
            None => r matches Err(AppError::Agent(m)) && m@ == "No final answer found in response"@,
        },
{
    match machine_final_answer(final_response) {
        Some(answers) => Ok(answers),
        None => Err(AppError::Agent(String::from_str("No final answer found in response"))),
    }
}

/// Keeps the final answer in the agent's message under `communicate` (when
/// that message is an object; otherwise the agent is left as it is).
pub fn record_final_answer(agent: &mut Agent, answers: &str)
    ensures
        final(agent)@ == (AgentView {
            communication_message: json_set(
                old(agent)@.communication_message,
                "communicate"@,
                JsonView::Str(answers@),
            ),
            ..old(agent)@
        }),
{
    agent.communication_message.insert_member("communicate", JsonValue::Str(answers.to_owned()));
}

/// The user message that asks for a structured output of a raw result.
pub open spec fn structured_output_message(prompt: Seq<char>, result: Seq<char>) -> Seq<(Seq<char>, Seq<char>)> {
    seq![("role"@, "user"@), ("content"@, prompt + "\n\nResult:\n"@ + result)]
}

/// The payload that asks for a structured output of a raw result: one user
/// message with the prompt and the result, and the response format.
pub fn structured_output_payload(
    model: &str,
    structured_prompt: &str,
    result_from_node1: &str,
    response_format: &JsonValue,
) -> (r: Result<JsonValue, AppError>)
    ensures
        r matches Ok(p) && p@ == payload_json(
            model@,
            seq![structured_output_message(structured_prompt@, result_from_node1@)],
            None,
            None,
            Some(response_format@),
        ),
{
    let combined_prompt = String::from_str(structured_prompt).concat("\n\nResult:\n").concat(
        result_from_node1,
    );
    proof {
        reveal_strlit("role");
        reveal_strlit("content");
        assert("role"@.len() != "content"@.len());
    }
    let message = map_of_two("role", String::from_str("user"), "content", combined_prompt);
    let mut messages: Vec<StringMap> = Vec::new();
    messages.push(message);
    assert(maps_view(messages@) =~= seq![structured_output_message(structured_prompt@, result_from_node1@)]);
    machine_create_payload_with_or_without_tools_structout(
        model,
        messages.as_slice(),
        None,
        None,
        Some(response_format),
    )
}

/// The response format part of the payload for a schema:
/// `{"type": <new_type>, "json_schema": {"name", "strict", "schema"}}` when the type is
/// `json_schema`, `{"type": "json_object"}` when it is `json_object`, an `Agent` error otherwise.
pub fn response_format_part_of_payload_engine(
    new_name: String,
    new_strict: bool,
    new_schema: Schema,
    new_type: String,
) -> (r: Result<JsonValue, AppError>)
    ensures
        match response_format_result(
            new_type@,
            Some(CallApiResponseFormatView { name: new_name@, strict: new_strict, schema: new_schema@ }),
        ) {
            Ok(j) => r matches Ok(v) && v@ == j,
            Err(msg) => r matches Err(AppError::Agent(m)) && m@ == msg,
        },
{
    let mut response_format_new = ResponseFormat::new();
    let api_call_response_format = CallApiResponseFormat {
        name: new_name,
        strict: new_strict,
        schema: new_schema,
    };
    response_format_new.kind = new_type;
    response_format_new.schema = Some(api_call_response_format);
    let api_comsummable_response_format = response_format_new.response_format_desired_as_map()?;
    Ok(api_comsummable_response_format)
}

} // verus!
