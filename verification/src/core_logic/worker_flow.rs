//! A worker's work as a sequence of stages: it reads the file, writes it,
//! commits it and reports. Each structured answer of the model moves the work
//! one stage on and says what the caller does next.
use vstd::prelude::*;
use crate::core_engine::agents::AgentRole;
use crate::core_logic::dispatcher::RoutedMessage;
use crate::core_logic::errors::AppError;
use crate::core_logic::node_steps::{
    ManifestStep, check_written_path, commit_step, path_mismatch_message, read_step,
    report_route, report_state_json, state_report_sre_to_pr, trimmed_str_field, worker_report_route,
    write_step,
};
use crate::json::{JsonValue, json_text, json_to_text};
use crate::core_engine::agents::LlmResponse;
use crate::core_engine::machine::first_choice_content;
use crate::core_logic::node_steps::answer_content;
use crate::core_logic::schemas::{
    SRE2_AGENT_OWN_TASK_COMMIT_SCHEMA_COMMIT, SRE2_AGENT_OWN_TASK_COMMIT_SCHEMA_MESSAGE,
    SRE2_AGENT_OWN_TASK_READ_FILES_SCHEMA_FILE, SRE2_AGENT_OWN_TASK_READ_FILES_SCHEMA_INSTRUCTIONS,
    SRE2_AGENT_OWN_TASK_READ_FILES_SCHEMA_MANIFEST, SRE2_AGENT_OWN_TASK_WRITE_FILES_SCHEMA_FILE,
    SRE2_AGENT_OWN_TASK_WRITE_FILES_SCHEMA_MANIFEST, SRE2_AGENT_TO_PR_AGENT_SCHEMA_INSTRUCTIONS,
    SRE2_AGENT_TO_PR_AGENT_SCHEMA_REPORT, get_schema_fields, schema_fields_text,
    sre2_agent_own_task_commit_schema, sre2_agent_own_task_read_files_schema,
    sre2_agent_own_task_write_files_schema, sre2_agent_to_pr_agent_schema,
};
use crate::keyed::StrKeyed;

verus! {

/// The stage a worker's work is at: the run whose answer is awaited.
#[derive(Clone, Copy, Debug, PartialEq, Eq, Structural)]
pub enum WorkerStage {
    Read,
    Write,
    Commit,
    Report,
    Done,
}

/// The stage after a stage: read, write, commit, report, then done.
pub open spec fn next_stage(s: WorkerStage) -> WorkerStage {
    match s {
        WorkerStage::Read => WorkerStage::Write,
        WorkerStage::Write => WorkerStage::Commit,
        WorkerStage::Commit => WorkerStage::Report,
        WorkerStage::Report => WorkerStage::Done,
        WorkerStage::Done => WorkerStage::Done,
    }
}

/// What the caller does next: run the model for the next stage with the
/// given text, or send the report on.
pub enum WorkerAction {
    RunWrite(String),
    RunCommit(String),
    RunReport(String),
    Send(RoutedMessage),
}

/// A worker's work in progress: the worker, its stage, the instructions it
/// received and what the stages done so far handed on.
pub struct WorkerFlow {
    pub worker: AgentRole,
    pub stage: WorkerStage,
    pub instructions: String,
    pub read: Option<ManifestStep>,
    pub write: Option<ManifestStep>,
}

impl WorkerFlow {
    /// The steps done are there for the stage reached, and the worker is one
    /// of the two workers.
    pub open spec fn wf(&self) -> bool {
        &&& (self.worker == AgentRole::Sre1 || self.worker == AgentRole::Sre2)
        &&& (self.stage != WorkerStage::Read ==> self.read is Some)
        &&& (self.stage == WorkerStage::Commit || self.stage == WorkerStage::Report
            || self.stage == WorkerStage::Done ==> self.write is Some)
    }

    /// The work of a worker that has just received its instructions: reading comes first.
    pub fn start(worker: AgentRole, instructions: String) -> (r: WorkerFlow)
        requires
            worker == AgentRole::Sre1 || worker == AgentRole::Sre2,
        ensures
            r.wf(),
            r.worker == worker,
            r.stage == WorkerStage::Read,
            r.instructions@ == instructions@,
    {
        WorkerFlow { worker, stage: WorkerStage::Read, instructions, read: None, write: None }
    }

    /// Takes the structured answer of the stage's run and moves on:
    /// - reading hands its answer on to the writing run;
    /// - writing must name the file that was read (an error of the worker's
    ///   node otherwise, the stage staying where it is), then hands its answer
    ///   on to the commit run;
    /// - committing hands the report state (instructions, manifest before and
    ///   after, commit message) on to the report run;
    /// - the report is sent to the pull-request agent.
    pub fn advance(&mut self, answer: &JsonValue) -> (r: Result<WorkerAction, AppError>)
        requires
            old(self).wf(),
            old(self).stage != WorkerStage::Done,
        ensures
            final(self).wf(),
            final(self).worker == old(self).worker,
            final(self).instructions@ == old(self).instructions@,
            r is Ok ==> final(self).stage == next_stage(old(self).stage),
            old(self).stage == WorkerStage::Read ==> (final(self).read matches Some(st)
                && st.manifest@ == trimmed_str_field(answer@, "manifest"@) && st.path@
                == trimmed_str_field(answer@, "file"@)),
            old(self).stage != WorkerStage::Read ==> final(self).read == old(self).read,
            old(self).stage == WorkerStage::Write && r is Ok ==> (final(self).write matches Some(st)
                && st.manifest@ == trimmed_str_field(answer@, "manifest"@) && st.path@
                == trimmed_str_field(answer@, "file"@)),
            !(old(self).stage == WorkerStage::Write && r is Ok) ==> final(self).write == old(self).write,
            r is Err ==> final(self).stage == old(self).stage,
            old(self).stage == WorkerStage::Read ==> (r matches Ok(WorkerAction::RunWrite(t)) && t@
                == "manifest with instructions in what to modify and the file path to write to: "@
                + json_text(answer@)),
            old(self).stage == WorkerStage::Write ==> if old(self).read->Some_0.path@
                == trimmed_str_field(answer@, "file"@) {
                r matches Ok(WorkerAction::RunCommit(t)) && t@
                    == "new manifest and path of the file modified follwoing instructions: "@ + json_text(
                    answer@,
                )
            } else {
                &&& old(self).worker == AgentRole::Sre1 ==> (r matches Err(AppError::Sre1AgentNode(m)) && m@
                    == path_mismatch_message())
                &&& old(self).worker == AgentRole::Sre2 ==> (r matches Err(AppError::Sre2AgentNode(m)) && m@
                    == path_mismatch_message())
            },
            old(self).stage == WorkerStage::Commit ==> (r matches Ok(WorkerAction::RunReport(t)) && t@
                == json_text(
                report_state_json(
                    old(self).instructions@,
                    old(self).read->Some_0.manifest@,
                    old(self).write->Some_0.manifest@,
                    trimmed_str_field(answer@, "message"@),
                ),
            )),
            old(self).stage == WorkerStage::Report ==> (r matches Ok(WorkerAction::Send(m)) && m@
                == report_route("pr_agent"@, answer@)),
    {
        match self.stage {
            WorkerStage::Read => {
                let step = read_step(answer);
                let text = step.transmitted.clone();
                self.read = Some(step);
                self.stage = WorkerStage::Write;
                Ok(WorkerAction::RunWrite(text))
            },
            WorkerStage::Write => {
                let step = write_step(answer);
                let checked = match &self.read {
                    Some(read) => check_written_path(self.worker, read.path.as_str(), step.path.as_str()),
                    None => Ok(()),
                };
                match checked {
                    Ok(()) => {
                        let text = step.transmitted.clone();
                        self.write = Some(step);
                        self.stage = WorkerStage::Commit;
                        Ok(WorkerAction::RunCommit(text))
                    },
                    Err(e) => Err(e),
                }
            },
            WorkerStage::Commit => {
                let commit = commit_step(answer);
                let text = match (&self.read, &self.write) {
                    (Some(read), Some(write)) => {
                        let state = state_report_sre_to_pr(self.instructions.as_str(), read, write, &commit);
                        json_to_text(&state.to_json())
                    },
                    _ => String::new(),
                };
                self.stage = WorkerStage::Report;
                Ok(WorkerAction::RunReport(text))
            },
            _ => {
                self.stage = WorkerStage::Done;
                Ok(WorkerAction::Send(worker_report_route(answer)))
            },
        }
    }
}

// -------------------- what the structuring call is given --------------------

/// The refusal of a run's final answer that has no text.
pub open spec fn missing_answer_message(stage: WorkerStage) -> Seq<char> {
    match stage {
        WorkerStage::Read => "couldn't parse final answer (run_read)"@,
        WorkerStage::Write => "couldn't parse final answer (run_write)"@,
        WorkerStage::Commit => "couldn't parse final answer (run_commit)"@,
        _ => "couldn't parse final answer (run_report)"@,
    }
}

fn missing_answer_text(stage: WorkerStage) -> (r: String)
    ensures
        r@ == missing_answer_message(stage),
{
    match stage {
        WorkerStage::Read => String::from_str("couldn't parse final answer (run_read)"),
        WorkerStage::Write => String::from_str("couldn't parse final answer (run_write)"),
        WorkerStage::Commit => String::from_str("couldn't parse final answer (run_commit)"),
        _ => String::from_str("couldn't parse final answer (run_report)"),
    }
}

/// The text of a schema's fields that the structuring call is given: the
/// final answer must have a text (else a `StructureFinalOutputFromRaw` error
/// carrying `missing`), and what is given is the schema's field text.
pub fn schema_structuring_input(final_answer: &LlmResponse, schema: &StrKeyed<String>, missing: &str) -> (r:
    Result<String, AppError>)
    requires
        final_answer.choices@.len() > 0,
    ensures
        match first_choice_content(*final_answer) {
            Some(_) => r matches Ok(t) && t@ == "answer JSON schema field details:"@ + schema_fields_text(
                schema@,
            ),
            None => r matches Err(AppError::StructureFinalOutputFromRaw(m)) && m@ == missing@,
        },
{
    let _content = answer_content(final_answer, missing)?;
    Ok(get_schema_fields(schema))
}

/// The fields of the second worker's answer at a stage, each with its instruction.
pub open spec fn sre2_stage_schema(stage: WorkerStage) -> Seq<(Seq<char>, Seq<char>)> {
    match stage {
        WorkerStage::Read => seq![
            ("instructions"@, SRE2_AGENT_OWN_TASK_READ_FILES_SCHEMA_INSTRUCTIONS@),
            ("manifest"@, SRE2_AGENT_OWN_TASK_READ_FILES_SCHEMA_MANIFEST@),
            ("file"@, SRE2_AGENT_OWN_TASK_READ_FILES_SCHEMA_FILE@),
        ],
        WorkerStage::Write => seq![
            ("manifest"@, SRE2_AGENT_OWN_TASK_WRITE_FILES_SCHEMA_MANIFEST@),
            ("file"@, SRE2_AGENT_OWN_TASK_WRITE_FILES_SCHEMA_FILE@),
        ],
        WorkerStage::Commit => seq![
            ("commit"@, SRE2_AGENT_OWN_TASK_COMMIT_SCHEMA_COMMIT@),
            ("message"@, SRE2_AGENT_OWN_TASK_COMMIT_SCHEMA_MESSAGE@),
        ],
        _ => seq![
            ("report"@, SRE2_AGENT_TO_PR_AGENT_SCHEMA_REPORT@),
            ("instructions"@, SRE2_AGENT_TO_PR_AGENT_SCHEMA_INSTRUCTIONS@),
        ],
    }
}

/// What the structuring call of a worker's run is given:
/// - the first worker: the final answer's text at reading, writing and
///   committing, and the report state it was given at reporting;
/// - the second worker: its stage's field text, once the final answer is
///   known to have a text.
/// A final answer without text is a `StructureFinalOutputFromRaw` error naming
/// the run, except for the first worker's report, which does not read it.
pub fn structuring_input(worker: AgentRole, stage: WorkerStage, message: &str, final_answer: &LlmResponse) -> (r:
    Result<String, AppError>)
    requires
        worker == AgentRole::Sre1 || worker == AgentRole::Sre2,
        stage != WorkerStage::Done,
        final_answer.choices@.len() > 0,
    ensures
        worker == AgentRole::Sre1 && stage == WorkerStage::Report ==> (r matches Ok(t) && t@ == message@),
        worker == AgentRole::Sre1 && stage != WorkerStage::Report ==> match first_choice_content(*final_answer) {
            Some(c) => r matches Ok(t) && t@ == c,
            None => r matches Err(AppError::StructureFinalOutputFromRaw(m)) && m@ == missing_answer_message(stage),
        },
        worker == AgentRole::Sre2 ==> match first_choice_content(*final_answer) {
            Some(_) => r matches Ok(t) && t@ == "answer JSON schema field details:"@ + schema_fields_text(
                sre2_stage_schema(stage),
            ),
            None => r matches Err(AppError::StructureFinalOutputFromRaw(m)) && m@ == missing_answer_message(stage),
        },
{
    let missing = missing_answer_text(stage);
    match worker {
        AgentRole::Sre1 => match stage {
            WorkerStage::Report => Ok(message.to_owned()),
            _ => answer_content(final_answer, missing.as_str()),
        },
        _ => {
            let schema = match stage {
                WorkerStage::Read => sre2_agent_own_task_read_files_schema(),
                WorkerStage::Write => sre2_agent_own_task_write_files_schema(),
                WorkerStage::Commit => sre2_agent_own_task_commit_schema(),
                _ => sre2_agent_to_pr_agent_schema(),
            };
            schema_structuring_input(final_answer, &schema, missing.as_str())
        },
    }
}

/// A worker's work goes through its stages in one order, read, write, commit,
/// report, and is done after four moves; no move goes back to reading, and a
/// finished work stays finished.
pub proof fn law_worker_stage_order()
    ensures
        next_stage(WorkerStage::Read) == WorkerStage::Write,
        next_stage(next_stage(WorkerStage::Read)) == WorkerStage::Commit,
        next_stage(next_stage(next_stage(WorkerStage::Read))) == WorkerStage::Report,
        next_stage(next_stage(next_stage(next_stage(WorkerStage::Read)))) == WorkerStage::Done,
        forall|s: WorkerStage| #[trigger] next_stage(s) != WorkerStage::Read,
        next_stage(WorkerStage::Done) == WorkerStage::Done,
{
}

} // verus!
