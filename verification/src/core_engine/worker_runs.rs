//! What each run of a worker asks of the model: the payload, the tools, the
//! bound on calls, the prompt and the response format of its stage.
use vstd::prelude::*;
use crate::core_engine::agents::{AgentRole, PromptMap, UserType, opt_jsons_view};
use crate::core_engine::constants::{
    fields_schema, git_commit_work_tool_json, read_file_tool_json, schema_format_json,
    sre1_agent_commit_response_format_part, sre1_agent_read_response_format_part,
    sre1_agent_report_response_format_part, sre1_agent_write_response_format_part, sre1_agent_commit,
    sre1_agent_read, sre1_agent_write, sre1_commit_payload_tool, sre1_own_task_commit_fields,
    sre1_own_task_read_files_fields, sre1_own_task_write_files_fields, sre1_read_payload_tool,
    sre1_report_payload, sre1_report_payload_no_tool, sre1_report_to_pr_fields, sre1_write_payload_tool,
    sre2_agent_commit, sre2_agent_commit_response_format_part, sre2_agent_read,
    sre2_agent_read_response_format_part, sre2_agent_report_response_format_part, sre2_agent_write,
    sre2_agent_write_response_format_part, sre2_commit_fields, sre2_commit_payload_tool, sre2_read_fields,
    sre2_read_payload_tool, sre2_report_fields, sre2_report_payload, sre2_report_payload_no_tool,
    sre2_write_fields, sre2_write_payload_tool, worker_tool_payload, write_file_tool_json,
};
use crate::core_engine::agents::schema_from_fields;
use crate::core_engine::errors::AppError;
use crate::core_logic::worker_flow::WorkerStage;
use crate::json::{JsonValue, JsonView};

verus! {

/// View of a run's request.
pub struct RunRequestView {
    pub payload: JsonView,
    pub tools: Option<Seq<JsonView>>,
    pub max_loop: usize,
    pub prompt: Seq<char>,
    pub response_format: JsonView,
}

/// What a run asks of the model: the first payload, the tools offered, the
/// most calls, the system prompt of the structuring call and its response format.
pub struct RunRequest {
    pub payload: JsonValue,
    pub tools: Option<Vec<JsonValue>>,
    pub max_loop: usize,
    pub prompt: String,
    pub response_format: JsonValue,
}

impl View for RunRequest {
    type V = RunRequestView;

    open spec fn view(&self) -> RunRequestView {
        RunRequestView {
            payload: self.payload@,
            tools: opt_jsons_view(self.tools),
            max_loop: self.max_loop,
            prompt: self.prompt@,
            response_format: self.response_format@,
        }
    }
}

/// The system text of a template that holds only a system text.
fn template_system_text(template: PromptMap) -> (r: String)
    requires
        template@.len() == 1,
        template@[0].0 == UserType::System,
    ensures
        r@ == template@[0].1,
{
    match template.get(UserType::System) {
        Some(t) => t.clone(),
        None => {
            assert(template@[0].0 != UserType::System);
            String::new()
        },
    }
}

/// What a worker's run at a stage asks of the model, for a model name: the
/// payload, the tools, at most 5 calls, the system prompt that the
/// structuring call carries, and the response format.
pub open spec fn worker_run_view(
    worker: AgentRole,
    stage: WorkerStage,
    message: Seq<char>,
    model: Seq<char>,
) -> RunRequestView {
    if worker == AgentRole::Sre1 {
        match stage {
            WorkerStage::Read => RunRequestView {
            payload: worker_tool_payload(model, crate::core_engine::prompts::SRE1_AGENT_READ_PROMPT_TEXT@, message, read_file_tool_json()),
            tools: Some(seq![read_file_tool_json()]),
            max_loop: 5,
            prompt: crate::core_engine::prompts::SRE1_AGENT_READ_PROMPT_TEXT@,
            response_format: schema_format_json("sre1_agent_read_schema"@, fields_schema(sre1_own_task_read_files_fields(), seq!["instructions"@, "manifest"@, "file"@])),
        },
            WorkerStage::Write => RunRequestView {
            payload: worker_tool_payload(model, crate::core_engine::prompts::SRE1_AGENT_WRITE_PROMPT_TEXT@, message, write_file_tool_json()),
            tools: Some(seq![write_file_tool_json()]),
            max_loop: 5,
            prompt: crate::core_engine::prompts::SRE1_AGENT_WRITE_PROMPT_TEXT@,
            response_format: schema_format_json("sre1_agent_commit_schema"@, fields_schema(sre1_own_task_write_files_fields(), seq!["manifest"@, "file"@])),
        },
            WorkerStage::Commit => RunRequestView {
            payload: worker_tool_payload(model, crate::core_engine::prompts::SRE1_AGENT_COMMIT_PROMPT_TEXT@, message, git_commit_work_tool_json()),
            tools: Some(seq![git_commit_work_tool_json()]),
            max_loop: 5,
            prompt: crate::core_engine::prompts::SRE1_AGENT_COMMIT_PROMPT_TEXT@,
            response_format: schema_format_json("sre1_agent_commit_schema"@, fields_schema(sre1_own_task_commit_fields(), seq!["commit"@])),
        },
            _ => RunRequestView {
            payload: sre1_report_payload(model, message),
            tools: None,
            max_loop: 5,
            prompt: crate::core_engine::prompts::SRE1_AGENT_REPORT_PROMPT_TEXT@,
            response_format: schema_format_json("sre1_agent_report_schema"@, fields_schema(sre1_report_to_pr_fields(), seq!["report"@, "instructions"@])),
        },
        }
    } else {
        match stage {
            WorkerStage::Read => RunRequestView {
            payload: worker_tool_payload(model, crate::core_logic::prompts::SRE2_AGENT_READ_PROMPT_TEXT@, message, read_file_tool_json()),
            tools: Some(seq![read_file_tool_json()]),
            max_loop: 5,
            prompt: crate::core_logic::prompts::SRE2_AGENT_READ_PROMPT_TEXT@,
            response_format: schema_format_json("sre2_agent_read_schema"@, schema_from_fields(sre2_read_fields())),
        },
            WorkerStage::Write => RunRequestView {
            payload: worker_tool_payload(model, crate::core_logic::prompts::SRE2_AGENT_WRITE_PROMPT_TEXT@, message, write_file_tool_json()),
            tools: Some(seq![write_file_tool_json()]),
            max_loop: 5,
            prompt: crate::core_logic::prompts::SRE2_AGENT_WRITE_PROMPT_TEXT@,
            response_format: schema_format_json("sre2_agent_write_schema"@, schema_from_fields(sre2_write_fields())),
        },
            WorkerStage::Commit => RunRequestView {
            payload: worker_tool_payload(model, crate::core_logic::prompts::SRE2_AGENT_COMMIT_PROMPT_TEXT@, message, git_commit_work_tool_json()),
            tools: Some(seq![git_commit_work_tool_json()]),
            max_loop: 5,
            prompt: crate::core_logic::prompts::SRE2_AGENT_COMMIT_PROMPT_TEXT@,
            response_format: schema_format_json("sre2_agent_commit_schema"@, schema_from_fields(sre2_commit_fields())),
        },
            _ => RunRequestView {
            payload: sre2_report_payload(model, message),
            tools: None,
            max_loop: 5,
            prompt: crate::core_logic::prompts::SRE2_AGENT_REPORT_PROMPT_TEXT@,
            response_format: schema_format_json("sre2_agent_report_schema"@, schema_from_fields(sre2_report_fields())),
        },
        }
    }
}

/// The request of a worker's run at a stage. The model name comes from the
/// environment (`MODEL_QWEN3_32B`), so the payload is stated for some model.
pub fn worker_run_request(worker: AgentRole, stage: WorkerStage, message: String) -> (r: Result<
    RunRequest,
    AppError,
>)
    requires
        worker == AgentRole::Sre1 || worker == AgentRole::Sre2,
        stage != WorkerStage::Done,
    ensures
        r matches Ok(q) && exists|model: Seq<char>| q@ == #[trigger] worker_run_view(worker, stage, message@, model),
{
    let ghost instructions = message@;
    match (worker, stage) {
        (AgentRole::Sre1, WorkerStage::Read) => {
            let payload = sre1_read_payload_tool(message)?;
            let agent = sre1_agent_read()?;
            let tools = agent.llm.tools;
            let prompt = template_system_text(crate::core_engine::prompts::sre1_agent_read_prompt());
            let response_format = sre1_agent_read_response_format_part()?;
            let r = RunRequest { payload, tools, max_loop: 5, prompt, response_format };
            proof {
                let m = choose|m: Seq<char>| payload@ == worker_tool_payload(m, crate::core_engine::prompts::SRE1_AGENT_READ_PROMPT_TEXT@, instructions, read_file_tool_json());
                assert(r@ == worker_run_view(worker, stage, instructions, m));
            }
            Ok(r)
        },
        (AgentRole::Sre1, WorkerStage::Write) => {
            let payload = sre1_write_payload_tool(message)?;
            let agent = sre1_agent_write()?;
            let tools = agent.llm.tools;
            let prompt = template_system_text(crate::core_engine::prompts::sre1_agent_write_prompt());
            let response_format = sre1_agent_write_response_format_part()?;
            let r = RunRequest { payload, tools, max_loop: 5, prompt, response_format };
            proof {
                let m = choose|m: Seq<char>| payload@ == worker_tool_payload(m, crate::core_engine::prompts::SRE1_AGENT_WRITE_PROMPT_TEXT@, instructions, write_file_tool_json());
                assert(r@ == worker_run_view(worker, stage, instructions, m));
            }
            Ok(r)
        },
        (AgentRole::Sre1, WorkerStage::Commit) => {
            let payload = sre1_commit_payload_tool(message)?;
            let agent = sre1_agent_commit()?;
            let tools = agent.llm.tools;
            let prompt = template_system_text(crate::core_engine::prompts::sre1_agent_commit_prompt());
            let response_format = sre1_agent_commit_response_format_part()?;
            let r = RunRequest { payload, tools, max_loop: 5, prompt, response_format };
            proof {
                let m = choose|m: Seq<char>| payload@ == worker_tool_payload(m, crate::core_engine::prompts::SRE1_AGENT_COMMIT_PROMPT_TEXT@, instructions, git_commit_work_tool_json());
                assert(r@ == worker_run_view(worker, stage, instructions, m));
            }
            Ok(r)
        },
        (AgentRole::Sre1, _) => {
            let payload = sre1_report_payload_no_tool(message)?;
            let tools: Option<Vec<JsonValue>> = None;
            let prompt = template_system_text(crate::core_engine::prompts::sre1_agent_report_prompt());
            let response_format = sre1_agent_report_response_format_part()?;
            let r = RunRequest { payload, tools, max_loop: 5, prompt, response_format };
            proof {
                let m = choose|m: Seq<char>| payload@ == sre1_report_payload(m, instructions);
                assert(r@ == worker_run_view(worker, stage, instructions, m));
            }
            Ok(r)
        },
        (_, WorkerStage::Read) => {
            let payload = sre2_read_payload_tool(message)?;
            let agent = sre2_agent_read()?;
            let tools = agent.llm.tools;
            let prompt = template_system_text(crate::core_logic::prompts::sre2_agent_read_prompt());
            let response_format = sre2_agent_read_response_format_part()?;
            let r = RunRequest { payload, tools, max_loop: 5, prompt, response_format };
            proof {
                let m = choose|m: Seq<char>| payload@ == worker_tool_payload(m, crate::core_logic::prompts::SRE2_AGENT_READ_PROMPT_TEXT@, instructions, read_file_tool_json());
                assert(r@ == worker_run_view(worker, stage, instructions, m));
            }
            Ok(r)
        },
        (_, WorkerStage::Write) => {
            let payload = sre2_write_payload_tool(message)?;
            let agent = sre2_agent_write()?;
            let tools = agent.llm.tools;
            let prompt = template_system_text(crate::core_logic::prompts::sre2_agent_write_prompt());
            let response_format = sre2_agent_write_response_format_part()?;
            let r = RunRequest { payload, tools, max_loop: 5, prompt, response_format };
            proof {
                let m = choose|m: Seq<char>| payload@ == worker_tool_payload(m, crate::core_logic::prompts::SRE2_AGENT_WRITE_PROMPT_TEXT@, instructions, write_file_tool_json());
                assert(r@ == worker_run_view(worker, stage, instructions, m));
            }
            Ok(r)
        },
        (_, WorkerStage::Commit) => {
            let payload = sre2_commit_payload_tool(message)?;
            let agent = sre2_agent_commit()?;
            let tools = agent.llm.tools;
            let prompt = template_system_text(crate::core_logic::prompts::sre2_agent_commit_prompt());
            let response_format = sre2_agent_commit_response_format_part()?;
            let r = RunRequest { payload, tools, max_loop: 5, prompt, response_format };
            proof {
                let m = choose|m: Seq<char>| payload@ == worker_tool_payload(m, crate::core_logic::prompts::SRE2_AGENT_COMMIT_PROMPT_TEXT@, instructions, git_commit_work_tool_json());
                assert(r@ == worker_run_view(worker, stage, instructions, m));
            }
            Ok(r)
        },
        (_, _) => {
            let payload = sre2_report_payload_no_tool(message)?;
            let tools: Option<Vec<JsonValue>> = None;
            let prompt = template_system_text(crate::core_logic::prompts::sre2_agent_report_prompt());
            let response_format = sre2_agent_report_response_format_part()?;
            let r = RunRequest { payload, tools, max_loop: 5, prompt, response_format };
            proof {
                let m = choose|m: Seq<char>| payload@ == sre2_report_payload(m, instructions);
                assert(r@ == worker_run_view(worker, stage, instructions, m));
            }
            Ok(r)
        },
    }
}

} // verus!
