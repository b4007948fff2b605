//! The decisions of the agent nodes between their calls to the model: the
//! checks before a call, what is read from each structured answer, what is
//! handed to the next step, and where the work goes next. The calls to the
//! model, the file system and the channel are made by the caller, which hands
//! the answers to these steps.
use vstd::prelude::*;
use crate::core_engine::agents::{AgentRole, LlmResponse};
use crate::core_engine::machine::first_choice_content;
use crate::core_logic::dispatcher::{RoutedMessage, RoutedMessageView};
use crate::core_logic::envs_manage::get_env;
use crate::core_logic::errors::AppError;
use crate::json::{JsonValue, JsonView, json_get, json_get_str, json_parse, json_text, json_to_text, make_object, parse_json};
use crate::text::{is_blank, str_eq, trim, trim_spec};

verus! {

// -------------------- before a call --------------------

/// The refusal of an empty endpoint.
pub open spec fn empty_endpoint_message() -> Seq<char> {
    "LLM_API_URL is set but empty"@
}

/// The endpoint of the model's API from its lookup: the value when it is not
/// blank; an `Env` error when it is blank, and one carrying the lookup's
/// error when the lookup failed.
pub fn validate_endpoint(lookup: Result<String, AppError>) -> (r: Result<String, AppError>)
    ensures
        match lookup {
            Ok(url) => if trim_spec(url@).len() == 0 {
                r matches Err(AppError::Env(m)) && m@ == empty_endpoint_message()
            } else {
                r matches Ok(u) && u@ == url@
            },
            Err(e) => r matches Err(AppError::Env(m)) && m@ == empty_endpoint_message() + ": "@
                + e.display_text(),
        },
{
    match lookup {
        Ok(url) => {
            if is_blank(url.as_str()) {
                Err(AppError::Env(String::from_str("LLM_API_URL is set but empty")))
            } else {
                Ok(url)
            }
        },
        Err(e) => Err(
            AppError::Env(
                String::from_str("LLM_API_URL is set but empty").concat(": ").concat(
                    e.to_display_string().as_str(),
                ),
            ),
        ),
    }
}

/// The endpoint of the model's API, read from `LLM_API_URL`: never blank when
/// it comes back; an `Env` error otherwise.
pub fn llm_endpoint() -> (r: Result<String, AppError>)
    ensures
        match r {
            Ok(u) => trim_spec(u@).len() > 0,
            Err(e) => e is Env,
        },
{
    validate_endpoint(get_env("LLM_API_URL"))
}

/// The refusal of a blank model name.
pub open spec fn missing_model_message() -> Seq<char> {
    "Model env var is null error, make sure to select a model to make any API call."@
}

/// A model must be named: an `Env` error when its name is blank.
pub fn require_model(model: &str) -> (r: Result<(), AppError>)
    ensures
        trim_spec(model@).len() == 0 ==> (r matches Err(AppError::Env(m)) && m@ == missing_model_message()),
        trim_spec(model@).len() > 0 ==> r is Ok,
{
    if is_blank(model) {
        Err(
            AppError::Env(
                String::from_str(
                    "Model env var is null error, make sure to select a model to make any API call.",
                ),
            ),
        )
    } else {
        Ok(())
    }
}

// -------------------- reading an answer --------------------

/// The text of the answer's first choice; a `StructureFinalOutputFromRaw`
/// error carrying `missing` when that choice has no text. The answer has a
/// choice.
pub fn answer_content(resp: &LlmResponse, missing: &str) -> (r: Result<String, AppError>)
    requires
        resp.choices@.len() > 0,
    ensures
        match first_choice_content(*resp) {
            Some(c) => r matches Ok(s) && s@ == c,
            None => r matches Err(AppError::StructureFinalOutputFromRaw(m)) && m@ == missing@,
        },
{
    match &resp.choices[0].message.content {
        Some(c) => Ok(c.clone()),
        None => Err(AppError::StructureFinalOutputFromRaw(missing.to_owned())),
    }
}

/// The JSON value of a structured answer; a `CustomJson` error with the
/// parser's message when the text is not JSON.
pub fn parse_answer(text: &str) -> (r: Result<JsonValue, AppError>)
    ensures
        match json_parse(text@) {
            Ok(v) => r matches Ok(x) && x@ == v,
            Err(e) => r matches Err(AppError::CustomJson(m)) && m@ == e,
        },
{
    match parse_json(text) {
        Ok(v) => Ok(v),
        Err(e) => Err(AppError::CustomJson(e)),
    }
}

/// The trimmed text of a field of an answer; empty when the field is missing
/// or not a string.
pub open spec fn trimmed_str_field(v: JsonView, key: Seq<char>) -> Seq<char> {
    match json_get_str(v, key) {
        Some(s) => trim_spec(s),
        None => Seq::empty(),
    }
}

/// The trimmed text of a field of an answer (empty when missing or not a string).
pub fn trimmed_field(v: &JsonValue, key: &str) -> (r: String)
    ensures
        r@ == trimmed_str_field(v@, key@),
{
    match v.get_str(key) {
        Some(s) => trim(s.as_str()),
        None => String::new(),
    }
}

/// A text followed by the compact JSON of a value (`format!("{}{}", text, value)`).
fn with_json(prefix: &str, v: &JsonValue) -> (r: String)
    ensures
        r@ == prefix@ + json_text(v@),
{
    String::from_str(prefix).concat(json_to_text(v).as_str())
}

/// `{"instructions": <value>}`.
pub open spec fn instructions_json(v: JsonView) -> JsonView {
    JsonView::Object(seq![("instructions"@, v)])
}

fn instructions_message(v: JsonValue) -> (r: JsonValue)
    ensures
        r@ == instructions_json(v@),
{
    let ghost vv = v@;
    let mut members: Vec<(String, JsonValue)> = Vec::new();
    members.push((String::from_str("instructions"), v));
    assert(members@.map_values(|p: (String, JsonValue)| (p.0@, p.1@)) =~= seq![("instructions"@, vv)]);
    make_object(members)
}

// -------------------- the request analysis --------------------

/// The refusal of an analysis that gives no work to either worker.
pub open spec fn no_work_message() -> Seq<char> {
    "both keys (sre1_agent/sre2_agent) of schema returned are empty."@
}

/// Where the analysis of a request sends the work: to the first worker when
/// its instructions are not blank, else to the second when its are not; the
/// message carries the worker's instructions as the analysis gave them.
pub open spec fn request_route(analysis: JsonView) -> Option<RoutedMessageView> {
    if trimmed_str_field(analysis, "sre1_agent"@).len() > 0 {
        Some(
            RoutedMessageView {
                next_node: "sre1_agent"@,
                message: instructions_json(json_get(analysis, "sre1_agent"@).unwrap()),
            },
        )
    } else if trimmed_str_field(analysis, "sre2_agent"@).len() > 0 {
        Some(
            RoutedMessageView {
                next_node: "sre2_agent"@,
                message: instructions_json(json_get(analysis, "sre2_agent"@).unwrap()),
            },
        )
    } else {
        None
    }
}

/// Routes the analysis of a request to the worker it gives work to; a
/// `RequestAnalysisNode` error when it gives work to neither.
pub fn route_request_analysis(analysis: &JsonValue) -> (r: Result<RoutedMessage, AppError>)
    ensures
        match request_route(analysis@) {
            Some(m) => r matches Ok(x) && x@ == m,
            None => r matches Err(AppError::RequestAnalysisNode(msg)) && msg@ == no_work_message(),
        },
{
    let sre1_instructions = trimmed_field(analysis, "sre1_agent");
    let sre2_instructions = trimmed_field(analysis, "sre2_agent");
    if sre1_instructions.as_str().unicode_len() > 0 {
        match analysis.get("sre1_agent") {
            Some(v) => Ok(
                RoutedMessage {
                    next_node: String::from_str("sre1_agent"),
                    message: instructions_message(v.copy_value()),
                },
            ),
            None => Err(AppError::RequestAnalysisNode(String::from_str("both keys (sre1_agent/sre2_agent) of schema returned are empty."))),
        }
    } else if sre2_instructions.as_str().unicode_len() > 0 {
        match analysis.get("sre2_agent") {
            Some(v) => Ok(
                RoutedMessage {
                    next_node: String::from_str("sre2_agent"),
                    message: instructions_message(v.copy_value()),
                },
            ),
            None => Err(AppError::RequestAnalysisNode(String::from_str("both keys (sre1_agent/sre2_agent) of schema returned are empty."))),
        }
    } else {
        Err(
            AppError::RequestAnalysisNode(
                String::from_str("both keys (sre1_agent/sre2_agent) of schema returned are empty."),
            ),
        )
    }
}

// -------------------- a worker's steps --------------------

/// What a reading or writing step hands on: the text for the next step, and
/// the manifest and file path of the step's answer.
pub struct ManifestStep {
    pub transmitted: String,
    pub manifest: String,
    pub path: String,
}

fn manifest_step(prefix: &str, output: &JsonValue) -> (r: ManifestStep)
    ensures
        r.transmitted@ == prefix@ + json_text(output@),
        r.manifest@ == trimmed_str_field(output@, "manifest"@),
        r.path@ == trimmed_str_field(output@, "file"@),
{
    ManifestStep {
        transmitted: with_json(prefix, output),
        manifest: trimmed_field(output, "manifest"),
        path: trimmed_field(output, "file"),
    }
}

/// The reading step: its answer handed on as the manifest to modify and the
/// path to write to.
pub fn read_step(read_output: &JsonValue) -> (r: ManifestStep)
    ensures
        r.transmitted@ == "manifest with instructions in what to modify and the file path to write to: "@
            + json_text(read_output@),
        r.manifest@ == trimmed_str_field(read_output@, "manifest"@),
        r.path@ == trimmed_str_field(read_output@, "file"@),
{
    manifest_step("manifest with instructions in what to modify and the file path to write to: ", read_output)
}

/// The writing step: its answer handed on as the new manifest and the path modified.
pub fn write_step(write_output: &JsonValue) -> (r: ManifestStep)
    ensures
        r.transmitted@ == "new manifest and path of the file modified follwoing instructions: "@
            + json_text(write_output@),
        r.manifest@ == trimmed_str_field(write_output@, "manifest"@),
        r.path@ == trimmed_str_field(write_output@, "file"@),
{
    manifest_step("new manifest and path of the file modified follwoing instructions: ", write_output)
}

/// The refusal of a write to another file than the one read.
pub open spec fn path_mismatch_message() -> Seq<char> {
    "Initial file path red different from final file path written to."@
}

/// A worker writes to the file it read: an error of the worker's node when
/// the two paths differ.
pub fn check_written_path(worker: AgentRole, read_path: &str, write_path: &str) -> (r: Result<(), AppError>)
    requires
        worker == AgentRole::Sre1 || worker == AgentRole::Sre2,
    ensures
        read_path@ == write_path@ ==> r is Ok,
        read_path@ != write_path@ && worker == AgentRole::Sre1 ==> (r matches Err(AppError::Sre1AgentNode(m))
            && m@ == path_mismatch_message()),
        read_path@ != write_path@ && worker == AgentRole::Sre2 ==> (r matches Err(AppError::Sre2AgentNode(m))
            && m@ == path_mismatch_message()),
{
    if str_eq(read_path, write_path) {
        Ok(())
    } else {
        let m = String::from_str("Initial file path red different from final file path written to.");
        match worker {
            AgentRole::Sre1 => Err(AppError::Sre1AgentNode(m)),
            _ => Err(AppError::Sre2AgentNode(m)),
        }
    }
}

/// What the commit step hands on: the text for the report, and the commit message.
pub struct CommitStep {
    pub transmitted: String,
    pub message: String,
}

/// The commit step: its answer handed on, with the commit message it gives.
pub fn commit_step(commit_output: &JsonValue) -> (r: CommitStep)
    ensures
        r.transmitted@ == "commit done or not and the commit message: "@ + json_text(commit_output@),
        r.message@ == trimmed_str_field(commit_output@, "message"@),
{
    CommitStep {
        transmitted: with_json("commit done or not and the commit message: ", commit_output),
        message: trimmed_field(commit_output, "message"),
    }
}

/// What a worker reports to the pull-request agent: the instructions it got,
/// the manifest before and after, and the commit message.
pub struct StateReportSreToPr {
    pub initial_requirements: String,
    pub inital_manifest: String,
    pub final_manifest: String,
    pub commit: String,
}

/// The state of a worker's work after its steps.
pub fn state_report_sre_to_pr(
    message_transmitted: &str,
    read: &ManifestStep,
    write: &ManifestStep,
    commit: &CommitStep,
) -> (r: StateReportSreToPr)
    ensures
        r.initial_requirements@ == message_transmitted@,
        r.inital_manifest@ == read.manifest@,
        r.final_manifest@ == write.manifest@,
        r.commit@ == commit.message@,
{
    StateReportSreToPr {
        initial_requirements: message_transmitted.to_owned(),
        inital_manifest: read.manifest.clone(),
        final_manifest: write.manifest.clone(),
        commit: commit.message.clone(),
    }
}

/// The JSON of a worker's report state from its four texts.
pub open spec fn report_state_json(
    initial_requirements: Seq<char>,
    inital_manifest: Seq<char>,
    final_manifest: Seq<char>,
    commit: Seq<char>,
) -> JsonView {
    JsonView::Object(
        seq![
            ("initial_requirements"@, JsonView::Str(initial_requirements)),
            ("inital_manifest"@, JsonView::Str(inital_manifest)),
            ("final_manifest"@, JsonView::Str(final_manifest)),
            ("commit"@, JsonView::Str(commit)),
        ],
    )
}

/// The JSON of a worker's report state.
pub open spec fn state_report_sre_to_pr_json(s: StateReportSreToPr) -> JsonView {
    report_state_json(s.initial_requirements@, s.inital_manifest@, s.final_manifest@, s.commit@)
}

impl StateReportSreToPr {
    /// The JSON of the state.
    pub fn to_json(&self) -> (r: JsonValue)
        ensures
            r@ == state_report_sre_to_pr_json(*self),
    {
        let mut m: Vec<(String, JsonValue)> = Vec::new();
        m.push((String::from_str("initial_requirements"), JsonValue::Str(self.initial_requirements.clone())));
        m.push((String::from_str("inital_manifest"), JsonValue::Str(self.inital_manifest.clone())));
        m.push((String::from_str("final_manifest"), JsonValue::Str(self.final_manifest.clone())));
        m.push((String::from_str("commit"), JsonValue::Str(self.commit.clone())));
        assert(m@.map_values(|p: (String, JsonValue)| (p.0@, p.1@)) =~= seq![
            ("initial_requirements"@, JsonView::Str(self.initial_requirements@)),
            ("inital_manifest"@, JsonView::Str(self.inital_manifest@)),
            ("final_manifest"@, JsonView::Str(self.final_manifest@)),
            ("commit"@, JsonView::Str(self.commit@)),
        ]);
        make_object(m)
    }
}

/// The message that hands a report on to the next node:
/// `{"instructions": "work report and instructions: <report>"}`.
pub open spec fn report_route(next_node: Seq<char>, report: JsonView) -> RoutedMessageView {
    RoutedMessageView {
        next_node: next_node,
        message: instructions_json(JsonView::Str("work report and instructions: "@ + json_text(report))),
    }
}

fn route_report(next_node: &str, report_output: &JsonValue) -> (r: RoutedMessage)
    ensures
        r@ == report_route(next_node@, report_output@),
{
    let text = with_json("work report and instructions: ", report_output);
    RoutedMessage { next_node: next_node.to_owned(), message: instructions_message(JsonValue::Str(text)) }
}

/// A worker's report goes to the pull-request agent.
pub fn worker_report_route(report_output: &JsonValue) -> (r: RoutedMessage)
    ensures
        r@ == report_route("pr_agent"@, report_output@),
{
    route_report("pr_agent", report_output)
}

// -------------------- the pull-request agent's steps --------------------

/// The selection step: its answer handed on as the agent to pull the work from.
pub fn pr_read_step(read_output: &JsonValue) -> (r: String)
    ensures
        r@ == "here is the name of the agent to pull the work from: "@ + json_text(read_output@),
{
    with_json("here is the name of the agent to pull the work from: ", read_output)
}

/// What the pull step hands on: the text for the report, and the agent whose
/// work was pulled.
pub struct PullStep {
    pub transmitted: String,
    pub agent: String,
}

/// The pull step: the selection's answer handed on (as the pull done), with
/// the agent that the pull's answer names.
pub fn pr_pull_step(read_output: &JsonValue, pull_output: &JsonValue) -> (r: PullStep)
    ensures
        r.transmitted@ == "pull done and agent work pull is: "@ + json_text(read_output@),
        r.agent@ == trimmed_str_field(pull_output@, "agent"@),
{
    PullStep {
        transmitted: with_json("pull done and agent work pull is: ", read_output),
        agent: trimmed_field(pull_output, "agent"),
    }
}

/// What the pull-request agent reports to the main agent: the worker's report
/// and the worker whose work was pulled.
pub struct StateReportPrToMain {
    pub sre_report: String,
    pub worker_agent: String,
}

/// The JSON of the pull-request agent's report state.
pub open spec fn state_report_pr_to_main_json(s: StateReportPrToMain) -> JsonView {
    JsonView::Object(
        seq![
            ("sre_report"@, JsonView::Str(s.sre_report@)),
            ("worker_agent"@, JsonView::Str(s.worker_agent@)),
        ],
    )
}

impl StateReportPrToMain {
    /// The JSON of the state.
    pub fn to_json(&self) -> (r: JsonValue)
        ensures
            r@ == state_report_pr_to_main_json(*self),
    {
        let mut m: Vec<(String, JsonValue)> = Vec::new();
        m.push((String::from_str("sre_report"), JsonValue::Str(self.sre_report.clone())));
        m.push((String::from_str("worker_agent"), JsonValue::Str(self.worker_agent.clone())));
        assert(m@.map_values(|p: (String, JsonValue)| (p.0@, p.1@)) =~= seq![
            ("sre_report"@, JsonView::Str(self.sre_report@)),
            ("worker_agent"@, JsonView::Str(self.worker_agent@)),
        ]);
        make_object(m)
    }
}

/// The pull-request agent's report goes to the main agent.
pub fn pr_report_route(report_output: &JsonValue) -> (r: RoutedMessage)
    ensures
        r@ == report_route("main_agent"@, report_output@),
{
    route_report("main_agent", report_output)
}

} // verus!
