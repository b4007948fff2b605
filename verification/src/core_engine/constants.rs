//! The built-in values of the agent team: the models, the structured-output
//! fields of each exchange between agents, the schemas, response formats,
//! tools, prompts, agents, model settings and payloads built from them.
use vstd::prelude::*;
use crate::core_engine::agents::{
    Agent, AgentRole, AgentView, CallApiResponseFormatView, ChoiceTool, MessagesSent,
    ModelSettings, ModelSettingsView, Schema, SchemaFieldDetails, SchemaFieldType, SchemaView,
    StringMap, StructOut, TaskCompletion, Tools, UserType, call_api_response_format_json,
    json_schema, jsons_view, maps_view, payload_json, response_format_result, schema_from_fields,
    schema_properties, user_type_name,
};
use crate::core_engine::commits::commit_work;
use crate::core_engine::errors::AppError;
use crate::core_engine::machine::{
    create_agent_engine, create_model_settings_engine, create_payload_engine, create_schemas_engine,
    create_tool_engine, get_prompt_user_and_content_engine, get_specific_agent_schema_engine,
    machine_prompt, messages_format_engine, response_format_part_of_payload_engine, tool_json,
};
use crate::core_engine::prompts;
use crate::core_logic::envs_manage::env_or_empty;
use crate::json::{JsonValue, JsonView, make_object};
use crate::keyed::StrKeyed;

verus! {

// -------------------- models --------------------

/// The name of the Llama 4 Scout 17B model (`MODEL_LLAMA4_SCOUT_17B`, empty when unset).
pub fn model_llama4_scout_17b() -> String {
    env_or_empty("MODEL_LLAMA4_SCOUT_17B")
}

/// The name of the Qwen 3 32B model (`MODEL_QWEN3_32B`, empty when unset).
pub fn model_qwen3_32b() -> String {
    env_or_empty("MODEL_QWEN3_32B")
}

/// The name of the Llama 3.3 70B model (`MODEL_LLAMA3_3_70B`, empty when unset).
pub fn model_llama3_3_70b() -> String {
    env_or_empty("MODEL_LLAMA3_3_70B")
}

// -------------------- structured-output fields --------------------

fn fields_1(k1: &str, t1: SchemaFieldType) -> (r: StrKeyed<SchemaFieldType>)
    ensures
        r@ == seq![(k1@, t1)],
{
    let mut m: StrKeyed<SchemaFieldType> = StrKeyed::new();
    m.insert(k1.to_owned(), t1);
    assert(m@ =~= seq![(k1@, t1)]);
    m
}

fn fields_2(k1: &str, t1: SchemaFieldType, k2: &str, t2: SchemaFieldType) -> (r: StrKeyed<
    SchemaFieldType,
>)
    requires
        k1@ != k2@,
    ensures
        r@ == seq![(k1@, t1), (k2@, t2)],
{
    let mut m = fields_1(k1, t1);
    m.insert(k2.to_owned(), t2);
    assert(m@ =~= seq![(k1@, t1), (k2@, t2)]);
    m
}

fn fields_3(
    k1: &str,
    t1: SchemaFieldType,
    k2: &str,
    t2: SchemaFieldType,
    k3: &str,
    t3: SchemaFieldType,
) -> (r: StrKeyed<SchemaFieldType>)
    requires
        k1@ != k2@,
        k1@ != k3@,
        k2@ != k3@,
    ensures
        r@ == seq![(k1@, t1), (k2@, t2), (k3@, t3)],
{
    let mut m = fields_2(k1, t1, k2, t2);
    m.insert(k3.to_owned(), t3);
    assert(m@ =~= seq![(k1@, t1), (k2@, t2), (k3@, t3)]);
    m
}

/// The fields of `human_schema`, each with its type.
pub open spec fn human_fields() -> Seq<(Seq<char>, SchemaFieldType)> {
    seq![("sre1_agent"@, SchemaFieldType::String), ("sre2_agent"@, SchemaFieldType::String)]
}

/// The fields of the `human_schema` schema, each with its type.
pub fn human_schema() -> (r: StrKeyed<SchemaFieldType>)
    ensures
        r@ == human_fields(),
{
    proof {
        reveal_strlit("sre1_agent");
        reveal_strlit("sre2_agent");
        assert("sre1_agent"@[3] != "sre2_agent"@[3]);
    }
    fields_2("sre1_agent", SchemaFieldType::String, "sre2_agent", SchemaFieldType::String)
}

/// The fields of `main_to_human_schema`, each with its type.
pub open spec fn main_to_human_fields() -> Seq<(Seq<char>, SchemaFieldType)> {
    seq![("report"@, SchemaFieldType::String)]
}

/// The fields of the `main_to_human_schema` schema, each with its type.
pub fn main_to_human_schema() -> (r: StrKeyed<SchemaFieldType>)
    ensures
        r@ == main_to_human_fields(),
{
    fields_1("report", SchemaFieldType::String)
}

/// The fields of `main_own_task_schema`, each with its type.
pub open spec fn main_own_task_fields() -> Seq<(Seq<char>, SchemaFieldType)> {
    seq![("merge"@, SchemaFieldType::Bool), ("who"@, SchemaFieldType::String)]
}

/// The fields of the `main_own_task_schema` schema, each with its type.
pub fn main_own_task_schema() -> (r: StrKeyed<SchemaFieldType>)
    ensures
        r@ == main_own_task_fields(),
{
    proof {
        reveal_strlit("merge");
        reveal_strlit("who");
        assert("merge"@.len() != "who"@.len());
    }
    fields_2("merge", SchemaFieldType::Bool, "who", SchemaFieldType::String)
}

/// The fields of `main_to_sre_schema`, each with its type.
pub open spec fn main_to_sre_fields() -> Seq<(Seq<char>, SchemaFieldType)> {
    seq![("who"@, SchemaFieldType::String), ("instructions"@, SchemaFieldType::String)]
}

/// The fields of the `main_to_sre_schema` schema, each with its type.
pub fn main_to_sre_schema() -> (r: StrKeyed<SchemaFieldType>)
    ensures
        r@ == main_to_sre_fields(),
{
    proof {
        reveal_strlit("who");
        reveal_strlit("instructions");
        assert("who"@.len() != "instructions"@.len());
    }
    fields_2("who", SchemaFieldType::String, "instructions", SchemaFieldType::String)
}

/// The fields of `pr_to_sre_schema`, each with its type.
pub open spec fn pr_to_sre_fields() -> Seq<(Seq<char>, SchemaFieldType)> {
    seq![("instructions"@, SchemaFieldType::String), ("agent"@, SchemaFieldType::String)]
}

/// The fields of the `pr_to_sre_schema` schema, each with its type.
pub fn pr_to_sre_schema() -> (r: StrKeyed<SchemaFieldType>)
    ensures
        r@ == pr_to_sre_fields(),
{
    proof {
        reveal_strlit("instructions");
        reveal_strlit("agent");
        assert("instructions"@.len() != "agent"@.len());
    }
    fields_2("instructions", SchemaFieldType::String, "agent", SchemaFieldType::String)
}

/// The fields of `pr_own_task_pull_schema`, each with its type.
pub open spec fn pr_own_task_pull_fields() -> Seq<(Seq<char>, SchemaFieldType)> {
    seq![("pull"@, SchemaFieldType::Bool), ("agent"@, SchemaFieldType::String)]
}

/// The fields of the `pr_own_task_pull_schema` schema, each with its type.
pub fn pr_own_task_pull_schema() -> (r: StrKeyed<SchemaFieldType>)
    ensures
        r@ == pr_own_task_pull_fields(),
{
    proof {
        reveal_strlit("pull");
        reveal_strlit("agent");
        assert("pull"@.len() != "agent"@.len());
    }
    fields_2("pull", SchemaFieldType::Bool, "agent", SchemaFieldType::String)
}

/// The fields of `pr_own_task_diff_schema`, each with its type.
pub open spec fn pr_own_task_diff_fields() -> Seq<(Seq<char>, SchemaFieldType)> {
    seq![("agent"@, SchemaFieldType::String), ("validate"@, SchemaFieldType::Bool), ("reason"@, SchemaFieldType::String)]
}

/// The fields of the `pr_own_task_diff_schema` schema, each with its type.
pub fn pr_own_task_diff_schema() -> (r: StrKeyed<SchemaFieldType>)
    ensures
        r@ == pr_own_task_diff_fields(),
{
    proof {
        reveal_strlit("agent");
        reveal_strlit("validate");
        reveal_strlit("reason");
        assert("agent"@.len() != "validate"@.len());
        assert("agent"@.len() != "reason"@.len());
        assert("validate"@.len() != "reason"@.len());
    }
    fields_3("agent", SchemaFieldType::String, "validate", SchemaFieldType::Bool, "reason", SchemaFieldType::String)
}

/// The fields of `pr_to_main_schema`, each with its type.
pub open spec fn pr_to_main_fields() -> Seq<(Seq<char>, SchemaFieldType)> {
    seq![("agent"@, SchemaFieldType::String), ("report"@, SchemaFieldType::String)]
}

/// The fields of the `pr_to_main_schema` schema, each with its type.
pub fn pr_to_main_schema() -> (r: StrKeyed<SchemaFieldType>)
    ensures
        r@ == pr_to_main_fields(),
{
    proof {
        reveal_strlit("agent");
        reveal_strlit("report");
        assert("agent"@.len() != "report"@.len());
    }
    fields_2("agent", SchemaFieldType::String, "report", SchemaFieldType::String)
}

/// The fields of `sre1_report_to_pr_schema`, each with its type.
pub open spec fn sre1_report_to_pr_fields() -> Seq<(Seq<char>, SchemaFieldType)> {
    seq![("report"@, SchemaFieldType::String), ("instructions"@, SchemaFieldType::String)]
}

/// The fields of the `sre1_report_to_pr_schema` schema, each with its type.
pub fn sre1_report_to_pr_schema() -> (r: StrKeyed<SchemaFieldType>)
    ensures
        r@ == sre1_report_to_pr_fields(),
{
    proof {
        reveal_strlit("report");
        reveal_strlit("instructions");
        assert("report"@.len() != "instructions"@.len());
    }
    fields_2("report", SchemaFieldType::String, "instructions", SchemaFieldType::String)
}

/// The fields of `sre1_own_task_read_files_schema`, each with its type.
pub open spec fn sre1_own_task_read_files_fields() -> Seq<(Seq<char>, SchemaFieldType)> {
    seq![("instructions"@, SchemaFieldType::String), ("manifest"@, SchemaFieldType::String), ("file"@, SchemaFieldType::String)]
}

/// The fields of the `sre1_own_task_read_files_schema` schema, each with its type.
pub fn sre1_own_task_read_files_schema() -> (r: StrKeyed<SchemaFieldType>)
    ensures
        r@ == sre1_own_task_read_files_fields(),
{
    proof {
        reveal_strlit("instructions");
        reveal_strlit("manifest");
        reveal_strlit("file");
        assert("instructions"@.len() != "manifest"@.len());
        assert("instructions"@.len() != "file"@.len());
        assert("manifest"@.len() != "file"@.len());
    }
    fields_3("instructions", SchemaFieldType::String, "manifest", SchemaFieldType::String, "file", SchemaFieldType::String)
}

/// The fields of `sre1_own_task_write_files_schema`, each with its type.
pub open spec fn sre1_own_task_write_files_fields() -> Seq<(Seq<char>, SchemaFieldType)> {
    seq![("manifest"@, SchemaFieldType::String), ("file"@, SchemaFieldType::String)]
}

/// The fields of the `sre1_own_task_write_files_schema` schema, each with its type.
pub fn sre1_own_task_write_files_schema() -> (r: StrKeyed<SchemaFieldType>)
    ensures
        r@ == sre1_own_task_write_files_fields(),
{
    proof {
        reveal_strlit("manifest");
        reveal_strlit("file");
        assert("manifest"@.len() != "file"@.len());
    }
    fields_2("manifest", SchemaFieldType::String, "file", SchemaFieldType::String)
}

/// The fields of `sre1_own_task_commit_schema`, each with its type.
pub open spec fn sre1_own_task_commit_fields() -> Seq<(Seq<char>, SchemaFieldType)> {
    seq![("commit"@, SchemaFieldType::Bool)]
}

/// The fields of the `sre1_own_task_commit_schema` schema, each with its type.
pub fn sre1_own_task_commit_schema() -> (r: StrKeyed<SchemaFieldType>)
    ensures
        r@ == sre1_own_task_commit_fields(),
{
    fields_1("commit", SchemaFieldType::Bool)
}

/// The fields of `sre2_to_pr_schema`, each with its type.
pub open spec fn sre2_to_pr_fields() -> Seq<(Seq<char>, SchemaFieldType)> {
    seq![("report"@, SchemaFieldType::String)]
}

/// The fields of the `sre2_to_pr_schema` schema, each with its type.
pub fn sre2_to_pr_schema() -> (r: StrKeyed<SchemaFieldType>)
    ensures
        r@ == sre2_to_pr_fields(),
{
    fields_1("report", SchemaFieldType::String)
}

/// The fields of `sre2_own_task_read_files_schema`, each with its type.
pub open spec fn sre2_own_task_read_files_fields() -> Seq<(Seq<char>, SchemaFieldType)> {
    seq![("read"@, SchemaFieldType::Bool), ("manifest"@, SchemaFieldType::String), ("name"@, SchemaFieldType::String)]
}

/// The fields of the `sre2_own_task_read_files_schema` schema, each with its type.
pub fn sre2_own_task_read_files_schema() -> (r: StrKeyed<SchemaFieldType>)
    ensures
        r@ == sre2_own_task_read_files_fields(),
{
    proof {
        reveal_strlit("read");
        reveal_strlit("manifest");
        reveal_strlit("name");
        assert("read"@.len() != "manifest"@.len());
        assert("read"@[0] != "name"@[0]);
        assert("manifest"@.len() != "name"@.len());
    }
    fields_3("read", SchemaFieldType::Bool, "manifest", SchemaFieldType::String, "name", SchemaFieldType::String)
}

/// The fields of `sre2_own_task_write_files_schema`, each with its type.
pub open spec fn sre2_own_task_write_files_fields() -> Seq<(Seq<char>, SchemaFieldType)> {
    seq![("manifest"@, SchemaFieldType::String), ("name"@, SchemaFieldType::String)]
}

/// The fields of the `sre2_own_task_write_files_schema` schema, each with its type.
pub fn sre2_own_task_write_files_schema() -> (r: StrKeyed<SchemaFieldType>)
    ensures
        r@ == sre2_own_task_write_files_fields(),
{
    proof {
        reveal_strlit("manifest");
        reveal_strlit("name");
        assert("manifest"@.len() != "name"@.len());
    }
    fields_2("manifest", SchemaFieldType::String, "name", SchemaFieldType::String)
}

/// The fields of `sre2_own_task_commit_schema`, each with its type.
pub open spec fn sre2_own_task_commit_fields() -> Seq<(Seq<char>, SchemaFieldType)> {
    seq![("commit"@, SchemaFieldType::Bool)]
}

/// The fields of the `sre2_own_task_commit_schema` schema, each with its type.
pub fn sre2_own_task_commit_schema() -> (r: StrKeyed<SchemaFieldType>)
    ensures
        r@ == sre2_own_task_commit_fields(),
{
    fields_1("commit", SchemaFieldType::Bool)
}

// -------------------- schemas --------------------

/// The schemas of every role: the request analyzer's from `human_schema`, the
/// main agent's from `main_to_sre_schema`, the pull-request agent's from
/// `pr_to_sre_schema`, the workers' from their reports to it.
pub fn all_schemas_structout_constant() -> (r: Result<StructOut, AppError>)
    ensures
        r matches Ok(s) && s.HumanRequestAnalyzerStructOut@ == schema_from_fields(human_fields())
            && s.MainAgentStructOut@ == schema_from_fields(main_to_sre_fields())
            && s.PrAgentStructOut@ == schema_from_fields(pr_to_sre_fields())
            && s.Sre1StructOut@ == schema_from_fields(sre1_report_to_pr_fields())
            && s.Sre2StructOut@ == schema_from_fields(sre2_to_pr_fields()),
{
    match create_schemas_engine(
        human_schema(),
        main_to_sre_schema(),
        pr_to_sre_schema(),
        sre1_report_to_pr_schema(),
        sre2_to_pr_schema(),
    ) {
        Ok(structout) => Ok(structout),
        Err(e) => Err(
            AppError::SchemaEngine(
                String::from_str("Constant StructOut build error: ").concat(e.to_display_string().as_str()),
            ),
        ),
    }
}

/// The request analyzer's schema: built from `human_schema`.
pub fn request_analyzer_agent_schema() -> (r: Result<Schema, AppError>)
    ensures
        r matches Ok(s) && s@ == schema_from_fields(human_fields()),
{
    let all = all_schemas_structout_constant()?;
    match get_specific_agent_schema_engine(&all, &AgentRole::RequestAnalyzer) {
        Ok(schema) => Ok(schema),
        Err(e) => Err(
            AppError::GetSchemaEngine(
                String::from_str("Constant get specific schema error: ").concat(e.to_display_string().as_str()),
            ),
        ),
    }
}

/// A schema of type `"object"` with the properties of the given fields, the
/// given required fields and no additional properties.
pub open spec fn fields_schema(fields: Seq<(Seq<char>, SchemaFieldType)>, required: Seq<Seq<char>>) -> SchemaView {
    SchemaView {
        kind: "object"@,
        properties: schema_properties(fields),
        required: required,
        additional_properties: false,
    }
}

fn schema_with_required(fields: &StrKeyed<SchemaFieldType>, required: Vec<String>) -> (r: Schema)
    ensures
        r@ == fields_schema(fields@, crate::core_engine::agents::strings_view(required@)),
{
    let field_dict = SchemaFieldDetails::create_schema_field(fields);
    Schema::new(&field_dict, Some(&required))
}

/// The first worker's schema for reading: the fields of
/// `sre1_own_task_read_files_schema`, every one of them required.
pub fn sre1_read_agent_schema() -> (r: Result<Schema, AppError>)
    ensures
        r matches Ok(s) && s@ == fields_schema(
            sre1_own_task_read_files_fields(),
            seq!["instructions"@, "manifest"@, "file"@],
        ),
{
    let fields = sre1_own_task_read_files_schema();
    let mut required: Vec<String> = Vec::new();
    required.push(String::from_str("instructions"));
    required.push(String::from_str("manifest"));
    required.push(String::from_str("file"));
    let s = schema_with_required(&fields, required);
    assert(s@.required =~= seq!["instructions"@, "manifest"@, "file"@]);
    Ok(s)
}

/// The first worker's schema for writing: the fields of
/// `sre1_own_task_write_files_schema`, requiring `manifest` and `file`.
pub fn sre1_write_agent_schema() -> (r: Result<Schema, AppError>)
    ensures
        r matches Ok(s) && s@ == fields_schema(
            sre1_own_task_write_files_fields(),
            seq!["manifest"@, "file"@],
        ),
{
    let fields = sre1_own_task_write_files_schema();
    let mut required: Vec<String> = Vec::new();
    required.push(String::from_str("manifest"));
    required.push(String::from_str("file"));
    let s = schema_with_required(&fields, required);
    assert(s@.required =~= seq!["manifest"@, "file"@]);
    Ok(s)
}

/// The first worker's schema for committing: the fields of
/// `sre1_own_task_commit_schema`, requiring `commit`.
pub fn sre1_commit_agent_schema() -> (r: Result<Schema, AppError>)
    ensures
        r matches Ok(s) && s@ == fields_schema(sre1_own_task_commit_fields(), seq!["commit"@]),
{
    let fields = sre1_own_task_commit_schema();
    let mut required: Vec<String> = Vec::new();
    required.push(String::from_str("commit"));
    let s = schema_with_required(&fields, required);
    assert(s@.required =~= seq!["commit"@]);
    Ok(s)
}

/// The first worker's schema for reporting: the fields of
/// `sre1_report_to_pr_schema`, every one of them required.
pub fn sre1_report_agent_schema() -> (r: Result<Schema, AppError>)
    ensures
        r matches Ok(s) && s@ == fields_schema(
            sre1_report_to_pr_fields(),
            seq!["report"@, "instructions"@],
        ),
{
    let fields = sre1_report_to_pr_schema();
    let mut required: Vec<String> = Vec::new();
    required.push(String::from_str("report"));
    required.push(String::from_str("instructions"));
    let s = schema_with_required(&fields, required);
    assert(s@.required =~= seq!["report"@, "instructions"@]);
    Ok(s)
}

// -------------------- response formats --------------------

/// `{"type": "json_schema", "json_schema": {"name": <name>, "strict": true, "schema": <schema>}}`.
pub open spec fn schema_format_json(name: Seq<char>, schema: SchemaView) -> JsonView {
    JsonView::Object(
        seq![
            ("type"@, JsonView::Str("json_schema"@)),
            (
                "json_schema"@,
                call_api_response_format_json(
                    CallApiResponseFormatView { name: name, strict: true, schema: schema },
                ),
            ),
        ],
    )
}

proof fn lemma_json_schema_format(name: Seq<char>, schema: SchemaView)
    ensures
        response_format_result(
            "json_schema"@,
            Some(CallApiResponseFormatView { name: name, strict: true, schema: schema }),
        ) == Ok::<JsonView, Seq<char>>(schema_format_json(name, schema)),
{
    reveal_strlit("json_schema");
    reveal_strlit("json_object");
    assert("json_schema"@[5] != "json_object"@[5]);
}

fn schema_format(name: &str, schema: Schema) -> (r: Result<JsonValue, AppError>)
    ensures
        r matches Ok(v) && v@ == schema_format_json(name@, schema@),
{
    proof {
        lemma_json_schema_format(name@, schema@);
    }
    match response_format_part_of_payload_engine(name.to_owned(), true, schema, json_schema()) {
        Ok(part) => Ok(part),
        Err(e) => Err(
            AppError::ResponseFormatPart(
                String::from_str("Constant response format built error: ").concat(
                    e.to_display_string().as_str(),
                ),
            ),
        ),
    }
}

/// The request analyzer's response format, named `human_request_analyzer_schema`.
pub fn request_analyzer_response_format_part() -> (r: Result<JsonValue, AppError>)
    ensures
        r matches Ok(v) && v@ == schema_format_json(
            "human_request_analyzer_schema"@,
            schema_from_fields(human_fields()),
        ),
{
    let schema = request_analyzer_agent_schema()?;
    schema_format("human_request_analyzer_schema", schema)
}

/// The first worker's response format for reading, named `sre1_agent_read_schema`.
pub fn sre1_agent_read_response_format_part() -> (r: Result<JsonValue, AppError>)
    ensures
        r matches Ok(v) && v@ == schema_format_json(
            "sre1_agent_read_schema"@,
            fields_schema(sre1_own_task_read_files_fields(), seq!["instructions"@, "manifest"@, "file"@]),
        ),
{
    let schema = sre1_read_agent_schema()?;
    schema_format("sre1_agent_read_schema", schema)
}

/// The first worker's response format for writing; it carries the name
/// `sre1_agent_commit_schema`.
pub fn sre1_agent_write_response_format_part() -> (r: Result<JsonValue, AppError>)
    ensures
        r matches Ok(v) && v@ == schema_format_json(
            "sre1_agent_commit_schema"@,
            fields_schema(sre1_own_task_write_files_fields(), seq!["manifest"@, "file"@]),
        ),
{
    let schema = sre1_write_agent_schema()?;
    schema_format("sre1_agent_commit_schema", schema)
}

/// The first worker's response format for committing, named `sre1_agent_commit_schema`.
pub fn sre1_agent_commit_response_format_part() -> (r: Result<JsonValue, AppError>)
    ensures
        r matches Ok(v) && v@ == schema_format_json(
            "sre1_agent_commit_schema"@,
            fields_schema(sre1_own_task_commit_fields(), seq!["commit"@]),
        ),
{
    let schema = sre1_commit_agent_schema()?;
    schema_format("sre1_agent_commit_schema", schema)
}

/// The first worker's response format for reporting, named `sre1_agent_report_schema`.
pub fn sre1_agent_report_response_format_part() -> (r: Result<JsonValue, AppError>)
    ensures
        r matches Ok(v) && v@ == schema_format_json(
            "sre1_agent_report_schema"@,
            fields_schema(sre1_report_to_pr_fields(), seq!["report"@, "instructions"@]),
        ),
{
    let schema = sre1_report_agent_schema()?;
    schema_format("sre1_agent_report_schema", schema)
}

} // verus!

verus! {

// -------------------- tools --------------------

/// The description of the file-reading tool and of its `file_path` parameter.
pub const READ_FILE_TOOL_DESCRIPTION: &'static str = r#"This tool reads files by providing the full content of the file to be analyzed. Arguments `file_path`: The path of where is the file located to be able to read its content. Returns `String`: The content of the file."#;

/// The description of the file-writing tool.
pub const WRITE_FILE_TOOL_DESCRIPTION: &'static str = r#"This tool writes files when provided with full content to be written in the manifest"#;

/// The description of the `file_path` parameter of the file-writing tool.
pub const WRITE_FILE_TOOL_FILE_PATH_DESCRIPTION: &'static str = "The path of where is the file located to be able to write its content";

/// The description of the `yaml_manifest_content` parameter of the file-writing tool.
pub const WRITE_FILE_TOOL_CONTENT_DESCRIPTION: &'static str = "The content of the manifest in YAML format with good indentation and line returns, well formatted";

/// The description of the commit tool.
pub const GIT_COMMIT_WORK_TOOL_DESCRIPTION: &'static str = r#"This tool commits after work is done with writing changes to manifest file."#;

/// The description of both parameters of the commit tool.
pub const GIT_COMMIT_WORK_TOOL_PARAM_DESCRIPTION: &'static str = r#"This tool commits after work is done with writing changes to manifest file. Arguments `file_path` - The path of where is the manifest file that has been updated according to instructions and `commit_message` - The content of the commit message about the work that has been done. Returns `String` - confirmation of successfull commit of work or an error."#;

/// A tool parameter's settings: `{"name", "type", "description"}`.
pub open spec fn param_map_view(name: Seq<char>, kind: Seq<char>, description: Seq<char>) -> Seq<
    (Seq<char>, Seq<char>),
> {
    seq![("name"@, name), ("type"@, kind), ("description"@, description)]
}

fn param_map(name: &str, kind: &str, description: &str) -> (r: StringMap)
    ensures
        r@ == param_map_view(name@, kind@, description@),
{
    proof {
        reveal_strlit("name");
        reveal_strlit("type");
        reveal_strlit("description");
        assert("name"@[0] != "type"@[0]);
        assert("name"@.len() != "description"@.len());
        assert("type"@.len() != "description"@.len());
    }
    let mut m: StringMap = StrKeyed::new();
    m.insert(String::from_str("name"), name.to_owned());
    m.insert(String::from_str("type"), kind.to_owned());
    m.insert(String::from_str("description"), description.to_owned());
    assert(m@ =~= param_map_view(name@, kind@, description@));
    m
}

fn single_tool(fn_name: &str, description: &str, params: &[StringMap]) -> (r: Result<Tools, AppError>)
    ensures
        r matches Ok(t) && jsons_view(t.tools@) == seq![tool_json(fn_name@, description@, maps_view(params@))],
{
    let mut new_agent_tool = Tools::new();
    assert(jsons_view(new_agent_tool.tools@) =~= Seq::<JsonView>::empty());
    match create_tool_engine(&mut new_agent_tool, fn_name, description, params) {
        Ok(tool_object) => {
            assert(Seq::<JsonView>::empty().push(tool_json(fn_name@, description@, maps_view(params@)))
                =~= seq![tool_json(fn_name@, description@, maps_view(params@))]);
            Ok(tool_object)
        },
        Err(e) => Err(
            AppError::CreateToolEngine(
                String::from_str("Constant create tool error: ").concat(e.to_display_string().as_str()),
            ),
        ),
    }
}

/// The file-reading tool: `read_file_tool` with a string `file_path`.
pub open spec fn read_file_tool_json() -> JsonView {
    tool_json(
        "read_file_tool"@,
        READ_FILE_TOOL_DESCRIPTION@,
        seq![param_map_view("file_path"@, "string"@, READ_FILE_TOOL_DESCRIPTION@)],
    )
}

/// The file-writing tool: `write_file_tool` with a string `file_path` and a
/// string `yaml_manifest_content`, the two arguments the tool's run reads.
pub open spec fn write_file_tool_json() -> JsonView {
    tool_json(
        "write_file_tool"@,
        WRITE_FILE_TOOL_DESCRIPTION@,
        seq![
            param_map_view("file_path"@, "string"@, WRITE_FILE_TOOL_FILE_PATH_DESCRIPTION@),
            param_map_view("yaml_manifest_content"@, "string"@, WRITE_FILE_TOOL_CONTENT_DESCRIPTION@),
        ],
    )
}

/// The commit tool: `git_commit_work_tool` with a string `file_path` and a
/// string `commit_message`.
pub open spec fn git_commit_work_tool_json() -> JsonView {
    tool_json(
        "git_commit_work_tool"@,
        GIT_COMMIT_WORK_TOOL_DESCRIPTION@,
        seq![
            param_map_view("file_path"@, "string"@, GIT_COMMIT_WORK_TOOL_PARAM_DESCRIPTION@),
            param_map_view("commit_message"@, "string"@, GIT_COMMIT_WORK_TOOL_PARAM_DESCRIPTION@),
        ],
    )
}

/// The placeholder tool of an agent without tools: empty name, description
/// and parameter settings.
pub open spec fn no_tool_json() -> JsonView {
    tool_json(""@, ""@, seq![param_map_view(""@, ""@, ""@)])
}

/// The tools of a file-reading agent.
pub fn agent_read_file_tool() -> (r: Result<Tools, AppError>)
    ensures
        r matches Ok(t) && jsons_view(t.tools@) == seq![read_file_tool_json()],
{
    let mut params: Vec<StringMap> = Vec::new();
    params.push(param_map("file_path", "string", READ_FILE_TOOL_DESCRIPTION));
    assert(maps_view(params@) =~= seq![param_map_view("file_path"@, "string"@, READ_FILE_TOOL_DESCRIPTION@)]);
    single_tool("read_file_tool", READ_FILE_TOOL_DESCRIPTION, params.as_slice())
}

/// The tools of a file-writing agent.
pub fn agent_write_file_tool() -> (r: Result<Tools, AppError>)
    ensures
        r matches Ok(t) && jsons_view(t.tools@) == seq![write_file_tool_json()],
{
    let mut params: Vec<StringMap> = Vec::new();
    params.push(param_map("file_path", "string", WRITE_FILE_TOOL_FILE_PATH_DESCRIPTION));
    params.push(param_map("yaml_manifest_content", "string", WRITE_FILE_TOOL_CONTENT_DESCRIPTION));
    assert(maps_view(params@) =~= seq![
        param_map_view("file_path"@, "string"@, WRITE_FILE_TOOL_FILE_PATH_DESCRIPTION@),
        param_map_view("yaml_manifest_content"@, "string"@, WRITE_FILE_TOOL_CONTENT_DESCRIPTION@),
    ]);
    single_tool("write_file_tool", WRITE_FILE_TOOL_DESCRIPTION, params.as_slice())
}

/// The tools of a committing agent.
pub fn agent_git_commit_work_tool() -> (r: Result<Tools, AppError>)
    ensures
        r matches Ok(t) && jsons_view(t.tools@) == seq![git_commit_work_tool_json()],
{
    let mut params: Vec<StringMap> = Vec::new();
    params.push(param_map("file_path", "string", GIT_COMMIT_WORK_TOOL_PARAM_DESCRIPTION));
    params.push(param_map("commit_message", "string", GIT_COMMIT_WORK_TOOL_PARAM_DESCRIPTION));
    assert(maps_view(params@) =~= seq![
        param_map_view("file_path"@, "string"@, GIT_COMMIT_WORK_TOOL_PARAM_DESCRIPTION@),
        param_map_view("commit_message"@, "string"@, GIT_COMMIT_WORK_TOOL_PARAM_DESCRIPTION@),
    ]);
    single_tool("git_commit_work_tool", GIT_COMMIT_WORK_TOOL_DESCRIPTION, params.as_slice())
}

/// The tools of an agent that calls none: the placeholder tool.
pub fn agent_no_tool() -> (r: Result<Tools, AppError>)
    ensures
        r matches Ok(t) && jsons_view(t.tools@) == seq![no_tool_json()],
{
    let mut params: Vec<StringMap> = Vec::new();
    params.push(param_map("", "", ""));
    assert(maps_view(params@) =~= seq![param_map_view(""@, ""@, ""@)]);
    single_tool("", "", params.as_slice())
}

// -------------------- what the tools answer --------------------

/// What the file-reading tool answers: the file's content, or the reason it
/// could not be read.
pub fn read_file_tool(file_path: &str, read: Result<String, String>) -> (r: String)
    ensures
        match read {
            Ok(text) => r@ == text@,
            Err(e) => r@ == "An error Occured while trying to read file located at path "@ + file_path@
                + ": "@ + e@,
        },
{
    match read {
        Ok(text) => text,
        Err(e) => String::from_str("An error Occured while trying to read file located at path ").concat(
            file_path,
        ).concat(": ").concat(e.as_str()),
    }
}

/// What the file-writing tool answers: the write's report, or the reason the
/// content could not be written.
pub fn write_file_tool(file_path: &str, yaml_manifest_content: &str, written: Result<String, String>) -> (r:
    String)
    ensures
        match written {
            Ok(text) => r@ == text@,
            Err(e) => r@ == "An error Occured while trying to write in file this: "@ + yaml_manifest_content@
                + "\n At path "@ + file_path@ + ": "@ + e@,
        },
{
    match written {
        Ok(text) => text,
        Err(e) => String::from_str("An error Occured while trying to write in file this: ").concat(
            yaml_manifest_content,
        ).concat("\n At path ").concat(file_path).concat(": ").concat(e.as_str()),
    }
}

/// What the commit tool answers: the commit step's report.
pub fn git_commit_work_tool(file_path: &str, commit_message: &str) -> (r: String)
    ensures
        r@ == "work committed"@,
{
    match commit_work(file_path, commit_message) {
        Ok(text) => text,
        Err(e) => String::from_str("An error Occured while trying to commit work for the file path ").concat(
            file_path,
        ).concat(": ").concat(e.to_display_string().as_str()),
    }
}

// -------------------- prompts and agents --------------------

fn prompt_from_template(template: &crate::core_engine::agents::PromptMap) -> (r: Result<
    MessagesSent,
    AppError,
>)
    ensures
        r matches Ok(m) && m.user_type@ == user_type_name(
            crate::core_engine::machine::prompt_user_and_content(template@).0,
        ) && m.content@ == crate::core_engine::machine::prompt_user_and_content(template@).1,
{
    let (user_type, content) = match get_prompt_user_and_content_engine(template) {
        Ok(t) => t,
        Err(e) => {
            return Err(
                AppError::GetPromptUserContentEngine(
                    String::from_str("Constant get user type and prompt fetching error: ").concat(
                        e.to_display_string().as_str(),
                    ),
                ),
            );
        },
    };
    match machine_prompt(&user_type, content.as_str()) {
        Ok(prompt) => Ok(prompt),
        Err(e) => Err(
            AppError::PromptMachine(
                String::from_str("Constant agent prompt creation error: ").concat(e.to_display_string().as_str()),
            ),
        ),
    }
}

/// The request analyzer's prompt: its template's text, sent as the system.
pub fn request_analyzer_agent_prompt() -> (r: Result<MessagesSent, AppError>)
    ensures
        r matches Ok(m) && m.user_type@ == "system"@ && m.content@
            == prompts::HUMAN_REQUEST_AGENT_PROMPT_TEXT@,
{
    prompt_from_template(&prompts::human_request_agent_prompt())
}

/// The first worker's prompt for reading.
pub fn sre1_read_agent_prompt() -> (r: Result<MessagesSent, AppError>)
    ensures
        r matches Ok(m) && m.user_type@ == "system"@ && m.content@
            == prompts::SRE1_AGENT_READ_PROMPT_TEXT@,
{
    prompt_from_template(&prompts::sre1_agent_read_prompt())
}

/// The first worker's prompt for writing.
pub fn sre1_write_agent_prompt() -> (r: Result<MessagesSent, AppError>)
    ensures
        r matches Ok(m) && m.user_type@ == "system"@ && m.content@
            == prompts::SRE1_AGENT_WRITE_PROMPT_TEXT@,
{
    prompt_from_template(&prompts::sre1_agent_write_prompt())
}

/// The first worker's prompt for committing.
pub fn sre1_commit_agent_prompt() -> (r: Result<MessagesSent, AppError>)
    ensures
        r matches Ok(m) && m.user_type@ == "system"@ && m.content@
            == prompts::SRE1_AGENT_COMMIT_PROMPT_TEXT@,
{
    prompt_from_template(&prompts::sre1_agent_commit_prompt())
}

/// The first worker's prompt for reporting.
pub fn sre1_report_agent_prompt() -> (r: Result<MessagesSent, AppError>)
    ensures
        r matches Ok(m) && m.user_type@ == "system"@ && m.content@
            == prompts::SRE1_AGENT_REPORT_PROMPT_TEXT@,
{
    prompt_from_template(&prompts::sre1_agent_report_prompt())
}

/// The settings of the team's models: no model name yet, 8196 completion
/// tokens, temperature 0, no message, `Auto` tool choice, the given tools.
pub open spec fn team_settings(tools: Seq<JsonView>) -> ModelSettingsView {
    ModelSettingsView {
        name: Seq::empty(),
        max_completion: 8196,
        temperature: 0,
        message: Seq::empty(),
        tool_choice: ChoiceTool::Auto,
        tools: Some(tools),
        kind: "function"@,
    }
}

fn team_model_settings(tools: Result<Tools, AppError>) -> (r: Result<ModelSettings, AppError>)
    ensures
        match tools {
            Ok(t) => r matches Ok(s) && s@ == team_settings(jsons_view(t.tools@)),
            Err(e) => r == Err::<ModelSettings, AppError>(e),
        },
{
    let tools = tools?;
    proof {
        reveal_strlit("");
    }
    match create_model_settings_engine("", 8196, 0, tools.tools.as_slice()) {
        Ok(settings) => {
            assert(settings@.name =~= Seq::<char>::empty());
            Ok(settings)
        },
        Err(e) => Err(
            AppError::CreateModelSettingsEngine(
                String::from_str("Constant modelsettings creation error: ").concat(
                    e.to_display_string().as_str(),
                ),
            ),
        ),
    }
}

/// The request analyzer's model settings: with the file-reading tool.
pub fn request_analyzer_model_settings() -> (r: Result<ModelSettings, AppError>)
    ensures
        r matches Ok(s) && s@ == team_settings(seq![read_file_tool_json()]),
{
    team_model_settings(agent_read_file_tool())
}

/// The first worker's model settings for reading: with the file-reading tool.
pub fn sre1_read_model_settings() -> (r: Result<ModelSettings, AppError>)
    ensures
        r matches Ok(s) && s@ == team_settings(seq![read_file_tool_json()]),
{
    team_model_settings(agent_read_file_tool())
}

/// The first worker's model settings for writing: with the file-writing tool.
pub fn sre1_write_model_settings() -> (r: Result<ModelSettings, AppError>)
    ensures
        r matches Ok(s) && s@ == team_settings(seq![write_file_tool_json()]),
{
    team_model_settings(agent_write_file_tool())
}

/// The first worker's model settings for committing: with the commit tool.
pub fn sre1_commit_model_settings() -> (r: Result<ModelSettings, AppError>)
    ensures
        r matches Ok(s) && s@ == team_settings(seq![git_commit_work_tool_json()]),
{
    team_model_settings(agent_git_commit_work_tool())
}

/// The first worker's model settings for reporting: with the placeholder tool only.
pub fn sre1_report_model_settings() -> (r: Result<ModelSettings, AppError>)
    ensures
        r matches Ok(s) && s@ == team_settings(seq![no_tool_json()]),
{
    team_model_settings(agent_no_tool())
}

/// An idle agent of the team: an empty communication message, a system
/// prompt, its schema and its model settings.
pub open spec fn team_agent(
    role: AgentRole,
    prompt_text: Seq<char>,
    schema: SchemaView,
    settings: ModelSettingsView,
) -> AgentView {
    AgentView {
        role: role,
        communication_message: JsonView::Object(Seq::empty()),
        prompt: crate::core_engine::agents::MessagesSentView { user_type: "system"@, content: prompt_text },
        structured_output: schema,
        task_state: TaskCompletion::Idle,
        llm: settings,
    }
}

fn team_agent_from(
    role: AgentRole,
    prompt: Result<MessagesSent, AppError>,
    schema: Result<Schema, AppError>,
    settings: Result<ModelSettings, AppError>,
) -> (r: Result<Agent, AppError>)
    ensures
        prompt is Ok && schema is Ok && settings is Ok && prompt->Ok_0.user_type@ == "system"@ ==> (r matches Ok(a)
            && a@ == team_agent(role, prompt->Ok_0.content@, schema->Ok_0@, settings->Ok_0@)),
{
    let prompt = prompt?;
    let schema = schema?;
    let settings = settings?;
    let members: Vec<(String, JsonValue)> = Vec::new();
    assert(members@.map_values(|p: (String, JsonValue)| (p.0@, p.1@)) =~= Seq::<(Seq<char>, JsonView)>::empty());
    let no_message = make_object(members);
    match create_agent_engine(role, &no_message, &prompt, &schema, TaskCompletion::Idle, &settings) {
        Ok(new_agent) => Ok(new_agent),
        Err(e) => Err(
            AppError::AgentEngine(
                String::from_str("Constant agent creation error: ").concat(e.to_display_string().as_str()),
            ),
        ),
    }
}

/// The request analyzer agent.
pub fn request_analyzer_agent() -> (r: Result<Agent, AppError>)
    ensures
        r matches Ok(a) && a@ == team_agent(
            AgentRole::RequestAnalyzer,
            prompts::HUMAN_REQUEST_AGENT_PROMPT_TEXT@,
            schema_from_fields(human_fields()),
            team_settings(seq![read_file_tool_json()]),
        ),
{
    team_agent_from(
        AgentRole::RequestAnalyzer,
        request_analyzer_agent_prompt(),
        request_analyzer_agent_schema(),
        request_analyzer_model_settings(),
    )
}

/// The first worker's reading agent.
pub fn sre1_agent_read() -> (r: Result<Agent, AppError>)
    ensures
        r matches Ok(a) && a@ == team_agent(
            AgentRole::Sre1,
            prompts::SRE1_AGENT_READ_PROMPT_TEXT@,
            fields_schema(sre1_own_task_read_files_fields(), seq!["instructions"@, "manifest"@, "file"@]),
            team_settings(seq![read_file_tool_json()]),
        ),
{
    team_agent_from(AgentRole::Sre1, sre1_read_agent_prompt(), sre1_read_agent_schema(), sre1_read_model_settings())
}

/// The first worker's writing agent.
pub fn sre1_agent_write() -> (r: Result<Agent, AppError>)
    ensures
        r matches Ok(a) && a@ == team_agent(
            AgentRole::Sre1,
            prompts::SRE1_AGENT_WRITE_PROMPT_TEXT@,
            fields_schema(sre1_own_task_write_files_fields(), seq!["manifest"@, "file"@]),
            team_settings(seq![write_file_tool_json()]),
        ),
{
    team_agent_from(AgentRole::Sre1, sre1_write_agent_prompt(), sre1_write_agent_schema(), sre1_write_model_settings())
}

/// The first worker's committing agent.
pub fn sre1_agent_commit() -> (r: Result<Agent, AppError>)
    ensures
        r matches Ok(a) && a@ == team_agent(
            AgentRole::Sre1,
            prompts::SRE1_AGENT_COMMIT_PROMPT_TEXT@,
            fields_schema(sre1_own_task_commit_fields(), seq!["commit"@]),
            team_settings(seq![git_commit_work_tool_json()]),
        ),
{
    team_agent_from(AgentRole::Sre1, sre1_commit_agent_prompt(), sre1_commit_agent_schema(), sre1_commit_model_settings())
}

/// The first worker's reporting agent.
pub fn sre1_agent_report() -> (r: Result<Agent, AppError>)
    ensures
        r matches Ok(a) && a@ == team_agent(
            AgentRole::Sre1,
            prompts::SRE1_AGENT_REPORT_PROMPT_TEXT@,
            fields_schema(sre1_report_to_pr_fields(), seq!["report"@, "instructions"@]),
            team_settings(seq![no_tool_json()]),
        ),
{
    team_agent_from(AgentRole::Sre1, sre1_report_agent_prompt(), sre1_report_agent_schema(), sre1_report_model_settings())
}

} // verus!

verus! {

// -------------------- messages and payloads --------------------

/// An agent's prompt followed by the instructions it received.
pub open spec fn with_instructions(prompt: Seq<char>, message: Seq<char>) -> Seq<char> {
    prompt + "\nHere are the instructions received: "@ + message
}

/// `{"content": <text>, "role": "system"}`.
pub open spec fn system_message(text: Seq<char>) -> Seq<(Seq<char>, Seq<char>)> {
    seq![("content"@, text), ("role"@, "system"@)]
}

fn system_message_map(text: &str) -> (r: Result<StringMap, AppError>)
    ensures
        r matches Ok(m) && m@ == system_message(text@),
{
    match messages_format_engine(&UserType::System, text) {
        Ok(prompt) => Ok(prompt),
        Err(e) => Err(
            AppError::MessagesFormatEngine(
                String::from_str("Constant message formatted prompt to hashmap error: ").concat(
                    e.to_display_string().as_str(),
                ),
            ),
        ),
    }
}

/// The request analyzer's prompt as a system message.
pub fn model_message_formatted_hashmap_prompt() -> (r: Result<StringMap, AppError>)
    ensures
        r matches Ok(m) && m@ == system_message(prompts::HUMAN_REQUEST_AGENT_PROMPT_TEXT@),
{
    let agent = request_analyzer_agent()?;
    system_message_map(agent.prompt.content.as_str())
}

fn instructed_message(agent: Result<Agent, AppError>, message_tranmitted: &String) -> (r: Result<
    StringMap,
    AppError,
>)
    ensures
        agent is Ok ==> (r matches Ok(m) && m@ == system_message(
            with_instructions(agent->Ok_0.prompt.content@, message_tranmitted@),
        )),
{
    let agent = agent?;
    let content = agent.prompt.content.clone().concat("\nHere are the instructions received: ").concat(
        message_tranmitted.as_str(),
    );
    system_message_map(content.as_str())
}

/// The first worker's reading prompt with the instructions received, as a system message.
pub fn sre1_read_model_message_formatted_hashmap_prompt(message_tranmitted: String) -> (r: Result<
    StringMap,
    AppError,
>)
    ensures
        r matches Ok(m) && m@ == system_message(
            with_instructions(prompts::SRE1_AGENT_READ_PROMPT_TEXT@, message_tranmitted@),
        ),
{
    instructed_message(sre1_agent_read(), &message_tranmitted)
}

/// The first worker's writing prompt with the instructions received, as a system message.
pub fn sre1_write_model_message_formatted_hashmap_prompt(message_tranmitted: String) -> (r: Result<
    StringMap,
    AppError,
>)
    ensures
        r matches Ok(m) && m@ == system_message(
            with_instructions(prompts::SRE1_AGENT_WRITE_PROMPT_TEXT@, message_tranmitted@),
        ),
{
    instructed_message(sre1_agent_write(), &message_tranmitted)
}

/// The first worker's committing prompt with the instructions received, as a system message.
pub fn sre1_commit_model_message_formatted_hashmap_prompt(message_tranmitted: String) -> (r: Result<
    StringMap,
    AppError,
>)
    ensures
        r matches Ok(m) && m@ == system_message(
            with_instructions(prompts::SRE1_AGENT_COMMIT_PROMPT_TEXT@, message_tranmitted@),
        ),
{
    instructed_message(sre1_agent_commit(), &message_tranmitted)
}

/// The first worker's reporting prompt with the instructions received, as a system message.
pub fn sre1_report_model_message_formatted_hashmap_prompt(message_tranmitted: String) -> (r: Result<
    StringMap,
    AppError,
>)
    ensures
        r matches Ok(m) && m@ == system_message(
            with_instructions(prompts::SRE1_AGENT_REPORT_PROMPT_TEXT@, message_tranmitted@),
        ),
{
    instructed_message(sre1_agent_report(), &message_tranmitted)
}

/// The payload of one message for a model.
pub open spec fn one_message_payload(
    model: Seq<char>,
    message: Seq<(Seq<char>, Seq<char>)>,
    tool_choice: ChoiceTool,
    tools: Option<Seq<JsonView>>,
    response_format: Option<JsonView>,
) -> JsonView {
    payload_json(model, seq![message], Some(tool_choice), tools, response_format)
}

fn team_payload(
    model: &str,
    message: StringMap,
    tool_choice: ChoiceTool,
    tools: Option<&[JsonValue]>,
    response_format: Option<&JsonValue>,
) -> (r: Result<JsonValue, AppError>)
    ensures
        r matches Ok(p) && p@ == one_message_payload(
            model@,
            message@,
            tool_choice,
            crate::core_engine::machine::opt_tools_view(tools),
            crate::core_engine::machine::opt_json_view(response_format),
        ),
{
    let ghost mv = message@;
    let mut messages: Vec<StringMap> = Vec::new();
    messages.push(message);
    assert(maps_view(messages@) =~= seq![mv]);
    match create_payload_engine(model, messages.as_slice(), Some(tool_choice), tools, response_format) {
        Ok(payload) => Ok(payload),
        Err(e) => Err(
            AppError::PayloadEngine(
                String::from_str("Constant payload creation error: ").concat(e.to_display_string().as_str()),
            ),
        ),
    }
}

/// The request analyzer's payload without tools for a model.
pub open spec fn analyzer_payload_no_tool(model: Seq<char>) -> JsonView {
    one_message_payload(
        model,
        system_message(prompts::HUMAN_REQUEST_AGENT_PROMPT_TEXT@),
        ChoiceTool::Required,
        None,
        Some(schema_format_json("human_request_analyzer_schema"@, schema_from_fields(human_fields()))),
    )
}

/// The request analyzer's payload with its tool for a model.
pub open spec fn analyzer_payload_tool(model: Seq<char>) -> JsonView {
    one_message_payload(
        model,
        system_message(prompts::HUMAN_REQUEST_AGENT_PROMPT_TEXT@),
        ChoiceTool::Auto,
        Some(seq![read_file_tool_json()]),
        None,
    )
}

/// A worker payload with a tool: its prompt with the instructions
/// received, an `Auto` tool choice and the tool.
pub open spec fn worker_tool_payload(
    model: Seq<char>,
    prompt: Seq<char>,
    instructions: Seq<char>,
    tool: JsonView,
) -> JsonView {
    one_message_payload(
        model,
        system_message(with_instructions(prompt, instructions)),
        ChoiceTool::Auto,
        Some(seq![tool]),
        None,
    )
}

/// The first worker's reporting payload for a model.
pub open spec fn sre1_report_payload(model: Seq<char>, instructions: Seq<char>) -> JsonView {
    one_message_payload(
        model,
        system_message(with_instructions(prompts::SRE1_AGENT_REPORT_PROMPT_TEXT@, instructions)),
        ChoiceTool::Required,
        None,
        Some(
            schema_format_json(
                "sre1_agent_report_schema"@,
                fields_schema(sre1_report_to_pr_fields(), seq!["report"@, "instructions"@]),
            ),
        ),
    )
}

/// The request analyzer's payload without tools: its system message, a
/// required tool call and its response format, for the model that
/// `MODEL_QWEN3_32B` names (which depends on the environment).
pub fn request_analyzer_payload_no_tool() -> (r: Result<JsonValue, AppError>)
    ensures
        r matches Ok(p) && exists|model: Seq<char>| p@ == #[trigger] analyzer_payload_no_tool(model),
{
    let message = model_message_formatted_hashmap_prompt()?;
    let response_format = request_analyzer_response_format_part()?;
    let model = model_qwen3_32b();
    let r = team_payload(model.as_str(), message, ChoiceTool::Required, None, Some(&response_format));
    proof {
        if r is Ok {
            assert(r->Ok_0@ == analyzer_payload_no_tool(model@));
        }
    }
    r
}

/// The request analyzer's payload with the file-reading tool and an `Auto`
/// tool choice, for the model that `MODEL_QWEN3_32B` names.
pub fn request_analyzer_payload_tool() -> (r: Result<JsonValue, AppError>)
    ensures
        r matches Ok(p) && exists|model: Seq<char>| p@ == #[trigger] analyzer_payload_tool(model),
{
    let message = model_message_formatted_hashmap_prompt()?;
    let tools = agent_read_file_tool()?;
    let model = model_qwen3_32b();
    let r = team_payload(model.as_str(), message, ChoiceTool::Auto, Some(tools.tools.as_slice()), None);
    proof {
        if r is Ok {
            assert(r->Ok_0@ == analyzer_payload_tool(model@));
        }
    }
    r
}

/// The first worker's reading payload: the instructions received and the
/// file-reading tool, for the model that `MODEL_QWEN3_32B` names.
pub fn sre1_read_payload_tool(message_tranmitted: String) -> (r: Result<JsonValue, AppError>)
    ensures
        r matches Ok(p) && exists|model: Seq<char>|
            p@ == #[trigger] worker_tool_payload(
                model,
                prompts::SRE1_AGENT_READ_PROMPT_TEXT@,
                message_tranmitted@,
                read_file_tool_json(),
            ),
{
    let ghost instructions = message_tranmitted@;
    let message = sre1_read_model_message_formatted_hashmap_prompt(message_tranmitted)?;
    let tools = agent_read_file_tool()?;
    let model = model_qwen3_32b();
    let r = team_payload(model.as_str(), message, ChoiceTool::Auto, Some(tools.tools.as_slice()), None);
    proof {
        if r is Ok {
            assert(r->Ok_0@ == worker_tool_payload(
                model@,
                prompts::SRE1_AGENT_READ_PROMPT_TEXT@,
                instructions,
                read_file_tool_json(),
            ));
        }
    }
    r
}

/// The first worker's writing payload: the instructions received and the
/// file-writing tool, for the model that `MODEL_QWEN3_32B` names.
pub fn sre1_write_payload_tool(message_tranmitted: String) -> (r: Result<JsonValue, AppError>)
    ensures
        r matches Ok(p) && exists|model: Seq<char>|
            p@ == #[trigger] worker_tool_payload(
                model,
                prompts::SRE1_AGENT_WRITE_PROMPT_TEXT@,
                message_tranmitted@,
                write_file_tool_json(),
            ),
{
    let ghost instructions = message_tranmitted@;
    let message = sre1_write_model_message_formatted_hashmap_prompt(message_tranmitted)?;
    let tools = agent_write_file_tool()?;
    let model = model_qwen3_32b();
    let r = team_payload(model.as_str(), message, ChoiceTool::Auto, Some(tools.tools.as_slice()), None);
    proof {
        if r is Ok {
            assert(r->Ok_0@ == worker_tool_payload(
                model@,
                prompts::SRE1_AGENT_WRITE_PROMPT_TEXT@,
                instructions,
                write_file_tool_json(),
            ));
        }
    }
    r
}

/// The first worker's committing payload: the instructions received and the
/// commit tool, for the model that `MODEL_QWEN3_32B` names.
pub fn sre1_commit_payload_tool(message_tranmitted: String) -> (r: Result<JsonValue, AppError>)
    ensures
        r matches Ok(p) && exists|model: Seq<char>|
            p@ == #[trigger] worker_tool_payload(
                model,
                prompts::SRE1_AGENT_COMMIT_PROMPT_TEXT@,
                message_tranmitted@,
                git_commit_work_tool_json(),
            ),
{
    let ghost instructions = message_tranmitted@;
    let message = sre1_commit_model_message_formatted_hashmap_prompt(message_tranmitted)?;
    let tools = agent_git_commit_work_tool()?;
    let model = model_qwen3_32b();
    let r = team_payload(model.as_str(), message, ChoiceTool::Auto, Some(tools.tools.as_slice()), None);
    proof {
        if r is Ok {
            assert(r->Ok_0@ == worker_tool_payload(
                model@,
                prompts::SRE1_AGENT_COMMIT_PROMPT_TEXT@,
                instructions,
                git_commit_work_tool_json(),
            ));
        }
    }
    r
}

/// The first worker's reporting payload: the instructions received, a
/// required tool call and the report's response format, for the model that
/// `MODEL_QWEN3_32B` names.
pub fn sre1_report_payload_no_tool(message_tranmitted: String) -> (r: Result<JsonValue, AppError>)
    ensures
        r matches Ok(p) && exists|model: Seq<char>|
            p@ == #[trigger] sre1_report_payload(model, message_tranmitted@),
{
    let ghost instructions = message_tranmitted@;
    let message = sre1_report_model_message_formatted_hashmap_prompt(message_tranmitted)?;
    let response_format = sre1_agent_report_response_format_part()?;
    let model = model_qwen3_32b();
    let r = team_payload(model.as_str(), message, ChoiceTool::Required, None, Some(&response_format));
    proof {
        if r is Ok {
            assert(r->Ok_0@ == sre1_report_payload(model@, instructions));
        }
    }
    r
}

} // verus!

verus! {

// -------------------- the second worker --------------------

/// The fields the second worker answers when it has read a file.
pub open spec fn sre2_read_fields() -> Seq<(Seq<char>, SchemaFieldType)> {
    seq![
        ("instructions"@, SchemaFieldType::String),
        ("manifest"@, SchemaFieldType::String),
        ("file"@, SchemaFieldType::String),
    ]
}

/// The fields the second worker answers when it has written a file.
pub open spec fn sre2_write_fields() -> Seq<(Seq<char>, SchemaFieldType)> {
    seq![("manifest"@, SchemaFieldType::String), ("file"@, SchemaFieldType::String)]
}

/// The fields the second worker answers when it has committed.
pub open spec fn sre2_commit_fields() -> Seq<(Seq<char>, SchemaFieldType)> {
    seq![("commit"@, SchemaFieldType::Bool), ("message"@, SchemaFieldType::String)]
}

/// The fields of the second worker's report.
pub open spec fn sre2_report_fields() -> Seq<(Seq<char>, SchemaFieldType)> {
    seq![("report"@, SchemaFieldType::String), ("instructions"@, SchemaFieldType::String)]
}

fn sre2_schema(fields: StrKeyed<SchemaFieldType>) -> (r: Result<Schema, AppError>)
    ensures
        r matches Ok(s) && s@ == schema_from_fields(fields@),
{
    Ok(StructOut::build_schema(&fields))
}

/// The second worker's schema for reading: `instructions`, `manifest` and
/// `file`, all text, all required.
pub fn sre2_read_agent_schema() -> (r: Result<Schema, AppError>)
    ensures
        r matches Ok(s) && s@ == schema_from_fields(sre2_read_fields()),
{
    proof {
        reveal_strlit("instructions");
        reveal_strlit("manifest");
        reveal_strlit("file");
        assert("instructions"@.len() != "manifest"@.len());
        assert("instructions"@.len() != "file"@.len());
        assert("manifest"@.len() != "file"@.len());
    }
    sre2_schema(
        fields_3(
            "instructions",
            SchemaFieldType::String,
            "manifest",
            SchemaFieldType::String,
            "file",
            SchemaFieldType::String,
        ),
    )
}

/// The second worker's schema for writing: `manifest` and `file`, both text, both required.
pub fn sre2_write_agent_schema() -> (r: Result<Schema, AppError>)
    ensures
        r matches Ok(s) && s@ == schema_from_fields(sre2_write_fields()),
{
    proof {
        reveal_strlit("manifest");
        reveal_strlit("file");
        assert("manifest"@.len() != "file"@.len());
    }
    sre2_schema(fields_2("manifest", SchemaFieldType::String, "file", SchemaFieldType::String))
}

/// The second worker's schema for committing: `commit` (a boolean) and
/// `message` (text), both required.
pub fn sre2_commit_agent_schema() -> (r: Result<Schema, AppError>)
    ensures
        r matches Ok(s) && s@ == schema_from_fields(sre2_commit_fields()),
{
    proof {
        reveal_strlit("commit");
        reveal_strlit("message");
        assert("commit"@.len() != "message"@.len());
    }
    sre2_schema(fields_2("commit", SchemaFieldType::Bool, "message", SchemaFieldType::String))
}

/// The second worker's schema for reporting: `report` and `instructions`,
/// both text, both required.
pub fn sre2_report_agent_schema() -> (r: Result<Schema, AppError>)
    ensures
        r matches Ok(s) && s@ == schema_from_fields(sre2_report_fields()),
{
    proof {
        reveal_strlit("report");
        reveal_strlit("instructions");
        assert("report"@.len() != "instructions"@.len());
    }
    sre2_schema(fields_2("report", SchemaFieldType::String, "instructions", SchemaFieldType::String))
}

/// The second worker's response format for reading, named `sre2_agent_read_schema`.
pub fn sre2_agent_read_response_format_part() -> (r: Result<JsonValue, AppError>)
    ensures
        r matches Ok(v) && v@ == schema_format_json("sre2_agent_read_schema"@, schema_from_fields(sre2_read_fields())),
{
    let schema = sre2_read_agent_schema()?;
    schema_format("sre2_agent_read_schema", schema)
}

/// The second worker's response format for writing, named `sre2_agent_write_schema`.
pub fn sre2_agent_write_response_format_part() -> (r: Result<JsonValue, AppError>)
    ensures
        r matches Ok(v) && v@ == schema_format_json("sre2_agent_write_schema"@, schema_from_fields(sre2_write_fields())),
{
    let schema = sre2_write_agent_schema()?;
    schema_format("sre2_agent_write_schema", schema)
}

/// The second worker's response format for committing, named `sre2_agent_commit_schema`.
pub fn sre2_agent_commit_response_format_part() -> (r: Result<JsonValue, AppError>)
    ensures
        r matches Ok(v) && v@ == schema_format_json("sre2_agent_commit_schema"@, schema_from_fields(sre2_commit_fields())),
{
    let schema = sre2_commit_agent_schema()?;
    schema_format("sre2_agent_commit_schema", schema)
}

/// The second worker's response format for reporting, named `sre2_agent_report_schema`.
pub fn sre2_agent_report_response_format_part() -> (r: Result<JsonValue, AppError>)
    ensures
        r matches Ok(v) && v@ == schema_format_json("sre2_agent_report_schema"@, schema_from_fields(sre2_report_fields())),
{
    let schema = sre2_report_agent_schema()?;
    schema_format("sre2_agent_report_schema", schema)
}

/// The second worker's prompt for reading.
pub fn sre2_read_agent_prompt() -> (r: Result<MessagesSent, AppError>)
    ensures
        r matches Ok(m) && m.user_type@ == "system"@ && m.content@
            == crate::core_logic::prompts::SRE2_AGENT_READ_PROMPT_TEXT@,
{
    prompt_from_template(&crate::core_logic::prompts::sre2_agent_read_prompt())
}

/// The second worker's prompt for writing.
pub fn sre2_write_agent_prompt() -> (r: Result<MessagesSent, AppError>)
    ensures
        r matches Ok(m) && m.user_type@ == "system"@ && m.content@
            == crate::core_logic::prompts::SRE2_AGENT_WRITE_PROMPT_TEXT@,
{
    prompt_from_template(&crate::core_logic::prompts::sre2_agent_write_prompt())
}

/// The second worker's prompt for committing.
pub fn sre2_commit_agent_prompt() -> (r: Result<MessagesSent, AppError>)
    ensures
        r matches Ok(m) && m.user_type@ == "system"@ && m.content@
            == crate::core_logic::prompts::SRE2_AGENT_COMMIT_PROMPT_TEXT@,
{
    prompt_from_template(&crate::core_logic::prompts::sre2_agent_commit_prompt())
}

/// The second worker's prompt for reporting.
pub fn sre2_report_agent_prompt() -> (r: Result<MessagesSent, AppError>)
    ensures
        r matches Ok(m) && m.user_type@ == "system"@ && m.content@
            == crate::core_logic::prompts::SRE2_AGENT_REPORT_PROMPT_TEXT@,
{
    prompt_from_template(&crate::core_logic::prompts::sre2_agent_report_prompt())
}

/// The second worker's reading agent: the file-reading tool.
pub fn sre2_agent_read() -> (r: Result<Agent, AppError>)
    ensures
        r matches Ok(a) && a@ == team_agent(
            AgentRole::Sre2,
            crate::core_logic::prompts::SRE2_AGENT_READ_PROMPT_TEXT@,
            schema_from_fields(sre2_read_fields()),
            team_settings(seq![read_file_tool_json()]),
        ),
{
    team_agent_from(
        AgentRole::Sre2,
        sre2_read_agent_prompt(),
        sre2_read_agent_schema(),
        team_model_settings(agent_read_file_tool()),
    )
}

/// The second worker's writing agent: the file-writing tool.
pub fn sre2_agent_write() -> (r: Result<Agent, AppError>)
    ensures
        r matches Ok(a) && a@ == team_agent(
            AgentRole::Sre2,
            crate::core_logic::prompts::SRE2_AGENT_WRITE_PROMPT_TEXT@,
            schema_from_fields(sre2_write_fields()),
            team_settings(seq![write_file_tool_json()]),
        ),
{
    team_agent_from(
        AgentRole::Sre2,
        sre2_write_agent_prompt(),
        sre2_write_agent_schema(),
        team_model_settings(agent_write_file_tool()),
    )
}

/// The second worker's committing agent: the commit tool.
pub fn sre2_agent_commit() -> (r: Result<Agent, AppError>)
    ensures
        r matches Ok(a) && a@ == team_agent(
            AgentRole::Sre2,
            crate::core_logic::prompts::SRE2_AGENT_COMMIT_PROMPT_TEXT@,
            schema_from_fields(sre2_commit_fields()),
            team_settings(seq![git_commit_work_tool_json()]),
        ),
{
    team_agent_from(
        AgentRole::Sre2,
        sre2_commit_agent_prompt(),
        sre2_commit_agent_schema(),
        team_model_settings(agent_git_commit_work_tool()),
    )
}

/// The second worker's reporting agent: the placeholder tool only.
pub fn sre2_agent_report() -> (r: Result<Agent, AppError>)
    ensures
        r matches Ok(a) && a@ == team_agent(
            AgentRole::Sre2,
            crate::core_logic::prompts::SRE2_AGENT_REPORT_PROMPT_TEXT@,
            schema_from_fields(sre2_report_fields()),
            team_settings(seq![no_tool_json()]),
        ),
{
    team_agent_from(
        AgentRole::Sre2,
        sre2_report_agent_prompt(),
        sre2_report_agent_schema(),
        team_model_settings(agent_no_tool()),
    )
}

/// The second worker's reading payload: the instructions received and the
/// file-reading tool, for the model that `MODEL_QWEN3_32B` names.
pub fn sre2_read_payload_tool(message_tranmitted: String) -> (r: Result<JsonValue, AppError>)
    ensures
        r matches Ok(p) && exists|model: Seq<char>|
            p@ == #[trigger] worker_tool_payload(
                model,
                crate::core_logic::prompts::SRE2_AGENT_READ_PROMPT_TEXT@,
                message_tranmitted@,
                read_file_tool_json(),
            ),
{
    let ghost instructions = message_tranmitted@;
    let message = instructed_message(sre2_agent_read(), &message_tranmitted)?;
    let tools = agent_read_file_tool()?;
    let model = model_qwen3_32b();
    let r = team_payload(model.as_str(), message, ChoiceTool::Auto, Some(tools.tools.as_slice()), None);
    proof {
        if r is Ok {
            assert(r->Ok_0@ == worker_tool_payload(
                model@,
                crate::core_logic::prompts::SRE2_AGENT_READ_PROMPT_TEXT@,
                instructions,
                read_file_tool_json(),
            ));
        }
    }
    r
}

/// The second worker's writing payload: the instructions received and the
/// file-writing tool, for the model that `MODEL_QWEN3_32B` names.
pub fn sre2_write_payload_tool(message_tranmitted: String) -> (r: Result<JsonValue, AppError>)
    ensures
        r matches Ok(p) && exists|model: Seq<char>|
            p@ == #[trigger] worker_tool_payload(
                model,
                crate::core_logic::prompts::SRE2_AGENT_WRITE_PROMPT_TEXT@,
                message_tranmitted@,
                write_file_tool_json(),
            ),
{
    let ghost instructions = message_tranmitted@;
    let message = instructed_message(sre2_agent_write(), &message_tranmitted)?;
    let tools = agent_write_file_tool()?;
    let model = model_qwen3_32b();
    let r = team_payload(model.as_str(), message, ChoiceTool::Auto, Some(tools.tools.as_slice()), None);
    proof {
        if r is Ok {
            assert(r->Ok_0@ == worker_tool_payload(
                model@,
                crate::core_logic::prompts::SRE2_AGENT_WRITE_PROMPT_TEXT@,
                instructions,
                write_file_tool_json(),
            ));
        }
    }
    r
}

/// The second worker's committing payload: the instructions received and the
/// commit tool, for the model that `MODEL_QWEN3_32B` names.
pub fn sre2_commit_payload_tool(message_tranmitted: String) -> (r: Result<JsonValue, AppError>)
    ensures
        r matches Ok(p) && exists|model: Seq<char>|
            p@ == #[trigger] worker_tool_payload(
                model,
                crate::core_logic::prompts::SRE2_AGENT_COMMIT_PROMPT_TEXT@,
                message_tranmitted@,
                git_commit_work_tool_json(),
            ),
{
    let ghost instructions = message_tranmitted@;
    let message = instructed_message(sre2_agent_commit(), &message_tranmitted)?;
    let tools = agent_git_commit_work_tool()?;
    let model = model_qwen3_32b();
    let r = team_payload(model.as_str(), message, ChoiceTool::Auto, Some(tools.tools.as_slice()), None);
    proof {
        if r is Ok {
            assert(r->Ok_0@ == worker_tool_payload(
                model@,
                crate::core_logic::prompts::SRE2_AGENT_COMMIT_PROMPT_TEXT@,
                instructions,
                git_commit_work_tool_json(),
            ));
        }
    }
    r
}

/// The second worker's reporting payload for a model.
pub open spec fn sre2_report_payload(model: Seq<char>, instructions: Seq<char>) -> JsonView {
    one_message_payload(
        model,
        system_message(with_instructions(crate::core_logic::prompts::SRE2_AGENT_REPORT_PROMPT_TEXT@, instructions)),
        ChoiceTool::Required,
        None,
        Some(schema_format_json("sre2_agent_report_schema"@, schema_from_fields(sre2_report_fields()))),
    )
}

/// The second worker's reporting payload: the instructions received, a
/// required tool call and the report's response format, for the model that
/// `MODEL_QWEN3_32B` names.
pub fn sre2_report_payload_no_tool(message_tranmitted: String) -> (r: Result<JsonValue, AppError>)
    ensures
        r matches Ok(p) && exists|model: Seq<char>|
            p@ == #[trigger] sre2_report_payload(model, message_tranmitted@),
{
    let ghost instructions = message_tranmitted@;
    let message = instructed_message(sre2_agent_report(), &message_tranmitted)?;
    let response_format = sre2_agent_report_response_format_part()?;
    let model = model_qwen3_32b();
    let r = team_payload(model.as_str(), message, ChoiceTool::Required, None, Some(&response_format));
    proof {
        if r is Ok {
            assert(r->Ok_0@ == sre2_report_payload(model@, instructions));
        }
    }
    r
}

} // verus!
