use git_sre_agents::core_engine::agents::{
    ResponseFormat, StructOut, AgentRole, ChoiceTool, MessageHistory, MessageToAppend, ModelSettings, SchemaFieldType, TasksIdentified,
    UserType,
};
use git_sre_agents::core_engine::constants::{
    agent_write_file_tool, sre1_report_agent_schema, sre2_agent_read, sre2_read_agent_schema,
    all_schemas_structout_constant, agent_no_tool, agent_read_file_tool, git_commit_work_tool, human_schema, read_file_tool,
    request_analyzer_agent, request_analyzer_agent_schema, sre1_read_agent_schema,
    sre1_read_model_message_formatted_hashmap_prompt, write_file_tool,
};
use git_sre_agents::core_engine::errors::AppError as EngineError;
use git_sre_agents::core_engine::headers::{api_key_from, bearer_value};
use git_sre_agents::core_engine::machine::{
    get_specific_agent_schema_engine, plan_tool_execution, tool_loop_until_final_answer_guard, tool_or_not_loop_guard, ToolRequest,
};
use git_sre_agents::core_engine::prompts::{HUMAN_REQUEST_AGENT_PROMPT_TEXT, SRE1_AGENT_READ_PROMPT_TEXT};
use git_sre_agents::core_logic::commits::{commit_outcome, commit_work_command, CommandRun, CommitEnv};
use git_sre_agents::core_logic::discord_notifier::{check_notification_status, notification_payload};
use git_sre_agents::core_logic::dispatcher::{dispatch_route, dispatcher_finished};
use git_sre_agents::core_logic::envs_manage::{env_set_report, get_env, value_or_empty};
use git_sre_agents::core_logic::errors::AppError;
use git_sre_agents::core_logic::merge::{merge_outcome, merge_work_command, MergeEnv};
use git_sre_agents::core_logic::node_steps::{
    check_written_path, commit_step, parse_answer, read_step, require_model, route_request_analysis,
    trimmed_field, validate_endpoint, worker_report_route,
};
use git_sre_agents::core_engine::tool_loop::ToolLoop;
use git_sre_agents::core_engine::agents::{LlmResponse, ResponseChoices, ResponseMessage, ToolCall, ToolCallFunction};
use git_sre_agents::core_logic::worker_flow::{structuring_input, WorkerAction, WorkerFlow, WorkerStage};
use git_sre_agents::core_engine::worker_runs::worker_run_request;
use git_sre_agents::core_logic::prompts::{human_request_agent_prompt_for_structured_output, SRE2_AGENT_READ_PROMPT_TEXT};
use git_sre_agents::core_logic::write_file::{file_write_mode, file_write_report, WriteMode};
use git_sre_agents::json::{json_to_text, parse_json, JsonValue};
use git_sre_agents::keyed::StrKeyed;
use git_sre_agents::text::{contains_str, is_blank, last_two_segments, trim, usize_to_text};

fn commit_env() -> CommitEnv {
    CommitEnv {
        sre1_repo_path: "/repos/sre1".to_string(),
        sre2_repo_path: "/repos/sre2".to_string(),
        sre1_branch: "sre1-own".to_string(),
        sre2_branch: "sre2-own".to_string(),
    }
}

fn merge_env() -> MergeEnv {
    MergeEnv {
        main_repo_path: "/repos/main".to_string(),
        sre1_branch_main: "sre1/feature".to_string(),
        sre2_branch_main: "sre2/feature".to_string(),
    }
}

fn text_of(v: &JsonValue) -> String {
    json_to_text(v)
}

#[test]
fn keyed_map_reads_back_what_was_inserted() {
    let mut m: StrKeyed<String> = StrKeyed::new();
    m.insert("a".to_string(), "1".to_string());
    m.insert("b".to_string(), "2".to_string());
    m.insert("a".to_string(), "3".to_string());
    assert_eq!(m.len(), 2);
    assert_eq!(m.get("a").map(|s| s.as_str()), Some("3"));
    assert_eq!(m.get("b").map(|s| s.as_str()), Some("2"));
    assert!(m.get("c").is_none());
    let (k0, v0) = m.entry(0);
    assert_eq!((k0.as_str(), v0.as_str()), ("a", "3"));
}

#[test]
fn json_member_reads_back_after_insert() {
    let mut v = parse_json(r#"{"x":"1"}"#).unwrap();
    v.insert_member("y", JsonValue::Str("2".to_string()));
    v.insert_member("x", JsonValue::Str("3".to_string()));
    assert_eq!(v.get_str("x"), Some("3".to_string()));
    assert_eq!(v.get_str("y"), Some("2".to_string()));
    assert_eq!(text_of(&v), r#"{"x":"3","y":"2"}"#);
}

#[test]
fn json_parse_error_is_reported() {
    assert!(parse_json("{not json").is_err());
    match parse_answer("{not json") {
        Err(AppError::CustomJson(m)) => assert!(!m.is_empty()),
        other => panic!("unexpected {:?}", other),
    }
}

#[test]
fn text_helpers() {
    assert_eq!(trim("  a b \n"), "a b");
    assert!(is_blank(" \t\n"));
    assert!(!is_blank(" x "));
    assert!(contains_str("sre1_notes.md", "note"));
    assert!(!contains_str("manifest.yaml", "note"));
    assert_eq!(usize_to_text(0), "0");
    assert_eq!(usize_to_text(8196), "8196");
    let (dir, file) = last_two_segments("/a/creditizens_sre1_repo/x.yaml");
    assert_eq!(dir, "creditizens_sre1_repo");
    assert_eq!(file, "x.yaml");
    let (dir, file) = last_two_segments("repo/f");
    assert_eq!((dir.as_str(), file.as_str()), ("repo", "f"));
}

#[test]
fn history_keeps_the_three_newest_messages() {
    let mut h = MessageHistory::new();
    for i in 0..4 {
        let content = format!("m{}", i);
        h.append_message_to_history(&MessageToAppend::new("user", &content, "")).unwrap();
    }
    assert_eq!(h.messages.len(), 3);
    assert_eq!(h.messages[0].content, "m1");
    assert_eq!(h.messages[2].content, "m3");
    h.clear_history().unwrap();
    assert_eq!(h.messages.len(), 0);
}

#[test]
fn model_settings_update_keeps_what_is_not_given() {
    let mut s = ModelSettings::initialize_model_settings_with_tools("m", 10, 1, &[], &[]);
    s.update_model_settings(None, Some(20), None, None, Some(&ChoiceTool::Required), None, None).unwrap();
    assert_eq!(s.name, "m");
    assert_eq!(s.max_completion, 20);
    assert_eq!(s.temperature, 1);
    assert_eq!(s.tool_choice, ChoiceTool::Required);
    assert_eq!(s.kind, "function");
}

#[test]
fn agent_and_task_updates_keep_what_is_not_given() {
    let mut agent = request_analyzer_agent().unwrap();
    let msg = agent.update_agent(None, None, None, None, None, None).unwrap();
    assert_eq!(msg, "Agent Field(s) Updated!");
    assert_eq!(agent.role, AgentRole::RequestAnalyzer);
    agent.update_agent(Some(&AgentRole::Sre2), None, None, None, None, None).unwrap();
    assert_eq!(agent.role, AgentRole::Sre2);
    assert_eq!(agent.prompt.content, HUMAN_REQUEST_AGENT_PROMPT_TEXT);

    let mut tasks = TasksIdentified::new(Some("fix a"), None);
    assert_eq!((tasks.sre1.as_str(), tasks.sre2.as_str()), ("fix a", ""));
    let copy = tasks.update_task(None, Some("fix b")).unwrap();
    assert_eq!((copy.sre1.as_str(), copy.sre2.as_str()), ("fix a", "fix b"));
    assert_eq!(tasks.sre2, "fix b");
}

#[test]
fn commit_command_for_first_worker() {
    let cmd = commit_work_command(
        "/home/x/creditizens_sre1_repo/ prometheus.yaml ",
        "update replicas",
        &commit_env(),
    );
    assert_eq!(
        cmd,
        r#"git -C /repos/sre1 checkout sre1-own && git -C /repos/sre1 add prometheus.yaml && git -C /repos/sre1 commit -m "update replicas""#
    );
}

#[test]
fn commit_command_for_second_worker() {
    let cmd = commit_work_command("/home/x/creditizens_sre2_repo/nginx.yaml", "m", &commit_env());
    assert_eq!(
        cmd,
        r#"git -C /repos/sre2 checkout sre2-own && git -C /repos/sre2 add nginx.yaml && git -C /repos/sre2 commit -m "m""#
    );
}

#[test]
fn commit_outcomes() {
    let ok = commit_outcome(CommandRun::Finished {
        success: true,
        stdout: "done".to_string(),
        stderr: String::new(),
    });
    assert_eq!(ok.unwrap(), "done");
    match commit_outcome(CommandRun::Finished {
        success: false,
        stdout: String::new(),
        stderr: "bad".to_string(),
    }) {
        Err(AppError::CommitCommandError(m)) => assert_eq!(m, "Git command failed: bad"),
        other => panic!("unexpected {:?}", other),
    }
    match commit_outcome(CommandRun::FailedToStart("no bash".to_string())) {
        Err(AppError::CommitCommandError(m)) => assert_eq!(m, "Failed to run command: no bash"),
        other => panic!("unexpected {:?}", other),
    }
}

#[test]
fn merge_commands() {
    assert_eq!(
        merge_work_command("sre1_agent", &merge_env()).unwrap(),
        "git -C /repos/main merge sre1/feature --allow-unrelated-histories --no-edit"
    );
    assert_eq!(
        merge_work_command("sre2_agent", &merge_env()).unwrap(),
        "git -C /repos/main merge sre2/feature --allow-unrelated-histories --no-edit"
    );
    match merge_work_command("pr_agent", &merge_env()) {
        Err(AppError::MergeCommandError(m)) => assert_eq!(
            m,
            "Merge Agent Work Error: nothing matching any agent: sre1_agent, sre2_agent..."
        ),
        other => panic!("unexpected {:?}", other),
    }
    match merge_outcome(CommandRun::Finished {
        success: false,
        stdout: String::new(),
        stderr: "conflict".to_string(),
    }) {
        Err(AppError::MergeCommandError(m)) => assert_eq!(m, "Git command failed: conflict"),
        other => panic!("unexpected {:?}", other),
    }
}

#[test]
fn note_files_are_appended_to() {
    assert_eq!(file_write_mode("/r/sre1_notes.md"), WriteMode::Append);
    assert_eq!(file_write_mode("/r/manifest.yaml"), WriteMode::Truncate);
    assert_eq!(
        file_write_report("kind: Pod"),
        "manifest has been successfully writen with content: kind: Pod"
    );
}

#[test]
fn dispatcher_routes_to_registered_nodes() {
    let routes = vec!["main_agent".to_string(), "pr_agent".to_string(), "sre1_agent".to_string()];
    assert_eq!(dispatch_route(&routes, "pr_agent").unwrap(), 1);
    match dispatch_route(&routes, "end_agent") {
        Err(AppError::UnknownNode(m)) => assert_eq!(m, "end_agent"),
        other => panic!("unexpected {:?}", other),
    }
    assert_eq!(dispatcher_finished(), "Dispatcher finished");
}

#[test]
fn request_analysis_goes_to_the_first_worker_first() {
    let both = parse_json(r#"{"sre1_agent":" fix prometheus ","sre2_agent":"fix nginx"}"#).unwrap();
    let m = route_request_analysis(&both).unwrap();
    assert_eq!(m.next_node, "sre1_agent");
    assert_eq!(text_of(&m.message), r#"{"instructions":" fix prometheus "}"#);

    let second = parse_json(r#"{"sre1_agent":"  ","sre2_agent":"fix nginx"}"#).unwrap();
    let m = route_request_analysis(&second).unwrap();
    assert_eq!(m.next_node, "sre2_agent");

    let none = parse_json(r#"{"sre1_agent":"","sre2_agent":3}"#).unwrap();
    match route_request_analysis(&none) {
        Err(AppError::RequestAnalysisNode(m)) => {
            assert_eq!(m, "both keys (sre1_agent/sre2_agent) of schema returned are empty.")
        },
        other => panic!("unexpected {:?}", other),
    }
}

#[test]
fn endpoint_and_model_checks() {
    assert_eq!(validate_endpoint(Ok("http://x".to_string())).unwrap(), "http://x");
    match validate_endpoint(Ok("  ".to_string())) {
        Err(AppError::Env(m)) => assert_eq!(m, "LLM_API_URL is set but empty"),
        other => panic!("unexpected {:?}", other),
    }
    match validate_endpoint(Err(AppError::Env("missing".to_string()))) {
        Err(AppError::Env(m)) => assert_eq!(m, "LLM_API_URL is set but empty: Env Var Error: missing"),
        other => panic!("unexpected {:?}", other),
    }
    assert!(require_model("qwen").is_ok());
    match require_model(" ") {
        Err(AppError::Env(m)) => assert_eq!(
            m,
            "Model env var is null error, make sure to select a model to make any API call."
        ),
        other => panic!("unexpected {:?}", other),
    }
}

#[test]
fn missing_environment_variable_is_an_env_error() {
    let r = get_env("GIT_SRE_AGENTS_SURELY_UNSET_VARIABLE");
    assert!(matches!(r, Err(AppError::Env(_))));
    assert_eq!(value_or_empty(r), "");
    assert_eq!(env_set_report("K", "V"), "Environement variable successfully set. key: K, value:V");
}

#[test]
fn worker_steps() {
    let read = parse_json(r#"{"file":" /r/a.yaml ","manifest":"kind: A"}"#).unwrap();
    let step = read_step(&read);
    assert_eq!(step.path, "/r/a.yaml");
    assert_eq!(step.manifest, "kind: A");
    assert!(step.transmitted.starts_with(
        "manifest with instructions in what to modify and the file path to write to: {"
    ));
    assert!(check_written_path(AgentRole::Sre2, "/r/a.yaml", "/r/a.yaml").is_ok());
    match check_written_path(AgentRole::Sre1, "/r/a.yaml", "/r/b.yaml") {
        Err(AppError::Sre1AgentNode(m)) => {
            assert_eq!(m, "Initial file path red different from final file path written to.")
        },
        other => panic!("unexpected {:?}", other),
    }
    let commit = parse_json(r#"{"message":" done "}"#).unwrap();
    let c = commit_step(&commit);
    assert_eq!(c.message, "done");
    assert_eq!(c.transmitted, r#"commit done or not and the commit message: {"message":" done "}"#);
    assert_eq!(trimmed_field(&commit, "absent"), "");
    let report = parse_json(r#"{"report":"ok"}"#).unwrap();
    let routed = worker_report_route(&report);
    assert_eq!(routed.next_node, "pr_agent");
    assert_eq!(
        text_of(&routed.message),
        r#"{"instructions":"work report and instructions: {\"report\":\"ok\"}"}"#
    );
}

#[test]
fn tool_loop_guards() {
    assert!(tool_or_not_loop_guard(4, 5).is_ok());
    match tool_or_not_loop_guard(5, 5) {
        Err(EngineError::Agent(m)) => assert_eq!(m, "Reached max tool loop iteration: 5"),
        other => panic!("unexpected {:?}", other),
    }
    match tool_loop_until_final_answer_guard(7, 5) {
        Err(EngineError::Agent(m)) => assert_eq!(m, "Max tool loop reached: 5"),
        other => panic!("unexpected {:?}", other),
    }
}

#[test]
fn tool_calls_are_planned() {
    let args = JsonValue::Str(r#"{"file_path":"/r/a.yaml"}"#.to_string());
    match plan_tool_execution("read_file_tool", &args).unwrap() {
        ToolRequest::ReadFile { file_path } => assert_eq!(file_path, "/r/a.yaml"),
        _ => panic!("a write was planned for a read"),
    }
    match plan_tool_execution("delete_tool", &args) {
        Err(EngineError::ExecuteToolEngine(m)) => assert_eq!(m, "Unknown tool name: delete_tool"),
        _ => panic!("unknown tool accepted"),
    }
    match plan_tool_execution("write_file_tool", &args) {
        Err(EngineError::ExecuteToolEngine(m)) => {
            assert_eq!(m, "Missing `yaml_manifest_content` argument for `write_file_tool`")
        },
        _ => panic!("missing content accepted"),
    }
}

#[test]
fn tool_answers() {
    assert_eq!(read_file_tool("/r/a", Ok("content".to_string())), "content");
    assert_eq!(
        read_file_tool("/r/a", Err("gone".to_string())),
        "An error Occured while trying to read file located at path /r/a: gone"
    );
    assert_eq!(
        write_file_tool("/r/a", "x: 1", Err("denied".to_string())),
        "An error Occured while trying to write in file this: x: 1\n At path /r/a: denied"
    );
    assert_eq!(git_commit_work_tool("/r/a", "m"), "work committed");
}

#[test]
fn built_in_schemas_and_tools() {
    let fields = human_schema();
    assert_eq!(fields.len(), 2);
    assert_eq!(fields.get("sre1_agent").copied(), Some(SchemaFieldType::String));
    let schema = request_analyzer_agent_schema().unwrap();
    assert_eq!(schema.kind, "object");
    assert_eq!(schema.required, vec!["sre1_agent".to_string(), "sre2_agent".to_string()]);
    assert!(!schema.additionalProperties);
    let read_schema = sre1_read_agent_schema().unwrap();
    assert_eq!(
        read_schema.required,
        vec!["instructions".to_string(), "manifest".to_string(), "file".to_string()]
    );
    let tools = agent_read_file_tool().unwrap();
    assert_eq!(tools.tools.len(), 1);
    let t = text_of(&tools.tools[0]);
    assert!(t.starts_with(r#"{"function":{"description":"#));
    let tool = parse_json(&t).unwrap();
    let function = tool.get("function").unwrap();
    assert_eq!(function.get_str("name"), Some("read_file_tool".to_string()));
    assert_eq!(tool.get_str("type"), Some("function".to_string()));
    let properties = function.get("parameters").unwrap().get("properties").unwrap();
    assert!(properties.get("file_path").is_some());
    let write = agent_write_file_tool().unwrap();
    let wt = parse_json(&text_of(&write.tools[0])).unwrap();
    let wprops = wt.get("function").unwrap().get("parameters").unwrap().get("properties").unwrap();
    assert!(wprops.get("file_path").is_some());
    assert!(wprops.get("yaml_manifest_content").is_some());
    assert!(wprops.get("commit_message").is_none());
    assert_eq!(agent_no_tool().unwrap().tools.len(), 1);
}

#[test]
fn built_in_agent_and_messages() {
    let agent = request_analyzer_agent().unwrap();
    assert_eq!(agent.role, AgentRole::RequestAnalyzer);
    assert_eq!(agent.prompt.user_type, "system");
    assert_eq!(agent.prompt.content, HUMAN_REQUEST_AGENT_PROMPT_TEXT);
    assert_eq!(agent.llm.max_completion, 8196);
    assert_eq!(agent.llm.tool_choice, ChoiceTool::Auto);
    let m = sre1_read_model_message_formatted_hashmap_prompt("do it".to_string()).unwrap();
    assert_eq!(m.get("role").map(|s| s.as_str()), Some("system"));
    assert_eq!(
        m.get("content").cloned(),
        Some(format!("{}\nHere are the instructions received: do it", SRE1_AGENT_READ_PROMPT_TEXT))
    );
    assert_eq!(UserType::default(), UserType::User);
}

#[test]
fn headers_and_notifications() {
    assert_eq!(bearer_value("k"), "Bearer k");
    assert_eq!(api_key_from(Ok("k".to_string())).unwrap(), "k");
    match api_key_from(Err(AppError::Env("x".to_string()))) {
        Err(EngineError::EnvSecret(m)) => assert_eq!(m, "Missing API key"),
        other => panic!("unexpected {:?}", other),
    }
    assert_eq!(text_of(&notification_payload("hi")), r#"{"content":"hi"}"#);
    assert!(check_notification_status(200, "200 OK").is_ok());
    match check_notification_status(204, "204 No Content") {
        Err(AppError::Notify(m)) => assert_eq!(m, "204 No Content"),
        other => panic!("unexpected {:?}", other),
    }
}

#[test]
fn engine_errors() {
    let all: StructOut = all_schemas_structout_constant().unwrap();
    match get_specific_agent_schema_engine(&all, &AgentRole::Unassigned) {
        Err(EngineError::GetSchemaEngine(m)) => assert_eq!(m, "get specific agent schema error"),
        _ => panic!("an unassigned role got a schema"),
    }
    let sre1 = get_specific_agent_schema_engine(&all, &AgentRole::Sre1).unwrap();
    assert_eq!(sre1.required, vec!["report".to_string(), "instructions".to_string()]);

    let mut format = ResponseFormat::new();
    assert_eq!(text_of(&format.response_format_desired_as_map().unwrap()), r#"{"type":"json_object"}"#);
    format.kind = "json_schema".to_string();
    match format.response_format_desired_as_map() {
        Err(EngineError::Agent(m)) => assert_eq!(m, "Missing schema for json_schema format"),
        _ => panic!("a schema format without schema was accepted"),
    }
    format.kind = "xml".to_string();
    match format.response_format_desired_as_map() {
        Err(EngineError::Agent(m)) => assert_eq!(m, "Unknown response format type"),
        _ => panic!("an unknown format was accepted"),
    }

    match plan_tool_execution("read_file_tool", &JsonValue::Str("{oops".to_string())) {
        Err(EngineError::ExecuteToolEngine(m)) => {
            assert!(m.starts_with("Failed to parse arguments JSON string: "))
        },
        _ => panic!("unparsable arguments were accepted"),
    }
}

fn answer(tool: bool) -> LlmResponse {
    let calls = if tool {
        Some(vec![ToolCall {
            function: ToolCallFunction {
                name: "read_file_tool".to_string(),
                arguments: JsonValue::Str(r#"{"file_path":"/r/a"}"#.to_string()),
            },
            id: "c1".to_string(),
        }])
    } else {
        None
    };
    LlmResponse {
        choices: vec![ResponseChoices {
            finish_reason: String::new(),
            message: ResponseMessage { content: Some("done".to_string()), role: "assistant".to_string(), tool_calls: calls },
        }],
        object: "chat.completion".to_string(),
    }
}

#[test]
fn tool_loop_counts_rounds_and_stops() {
    let mut l = ToolLoop::new(2);
    assert!(l.before_call().is_ok());
    let a = answer(true);
    assert_eq!(l.after_answer(&a).map(|c| c.id.clone()), Some("c1".to_string()));
    assert_eq!(l.rounds, 1);
    assert!(l.before_call().is_ok());
    let f = answer(false);
    assert!(l.after_answer(&f).is_none());
    assert_eq!(l.rounds, 1);
    let a2 = answer(true);
    l.after_answer(&a2);
    match l.before_call() {
        Err(EngineError::Agent(m)) => assert_eq!(m, "Max tool loop reached: 2"),
        _ => panic!("a third call was allowed"),
    }
}

#[test]
fn worker_flow_goes_read_write_commit_report() {
    let mut flow = WorkerFlow::start(AgentRole::Sre2, "fix nginx".to_string());
    let read = parse_json(r#"{"file":"/r/n.yaml","manifest":"a: 1"}"#).unwrap();
    match flow.advance(&read).unwrap() {
        WorkerAction::RunWrite(t) => assert!(t.starts_with("manifest with instructions")),
        _ => panic!("reading did not lead to writing"),
    }
    let wrong = parse_json(r#"{"file":"/r/other.yaml","manifest":"a: 2"}"#).unwrap();
    match flow.advance(&wrong) {
        Err(AppError::Sre2AgentNode(m)) => {
            assert_eq!(m, "Initial file path red different from final file path written to.")
        },
        _ => panic!("a write to another file was accepted"),
    }
    assert_eq!(flow.stage, WorkerStage::Write);
    let write = parse_json(r#"{"file":" /r/n.yaml ","manifest":"a: 2"}"#).unwrap();
    assert!(matches!(flow.advance(&write).unwrap(), WorkerAction::RunCommit(_)));
    let commit = parse_json(r#"{"commit":true,"message":"bump"}"#).unwrap();
    match flow.advance(&commit).unwrap() {
        WorkerAction::RunReport(t) => {
            let state = parse_json(&t).unwrap();
            assert_eq!(state.get_str("initial_requirements"), Some("fix nginx".to_string()));
            assert_eq!(state.get_str("inital_manifest"), Some("a: 1".to_string()));
            assert_eq!(state.get_str("final_manifest"), Some("a: 2".to_string()));
            assert_eq!(state.get_str("commit"), Some("bump".to_string()));
        },
        _ => panic!("committing did not lead to the report"),
    }
    let report = parse_json(r#"{"report":"ok"}"#).unwrap();
    match flow.advance(&report).unwrap() {
        WorkerAction::Send(m) => assert_eq!(m.next_node, "pr_agent"),
        _ => panic!("the report was not sent"),
    }
    assert_eq!(flow.stage, WorkerStage::Done);
}

#[test]
fn second_worker_builders() {
    let s = sre2_read_agent_schema().unwrap();
    assert_eq!(s.required, vec!["instructions".to_string(), "manifest".to_string(), "file".to_string()]);
    let a = sre2_agent_read().unwrap();
    assert_eq!(a.role, AgentRole::Sre2);
    assert_eq!(a.prompt.content, SRE2_AGENT_READ_PROMPT_TEXT);
    let r = sre1_report_agent_schema().unwrap();
    assert_eq!(r.required, vec!["report".to_string(), "instructions".to_string()]);
}

#[test]
fn structured_output_prompt_names_both_workers_files() {
    let p = human_request_agent_prompt_for_structured_output();
    assert!(p.starts_with("You are a specialist in instructions analysis to be affected to the right agent."));
    assert!(p.contains("creditizens_sre1_repo/prometheus_deployment.yaml"));
    assert!(p.contains("creditizens_sre2_repo/nginx_deployment.yaml"));
}

#[test]
fn worker_runs_and_structuring_inputs() {
    let q = worker_run_request(AgentRole::Sre2, WorkerStage::Read, "fix nginx".to_string()).unwrap();
    assert_eq!(q.max_loop, 5);
    assert_eq!(q.prompt, SRE2_AGENT_READ_PROMPT_TEXT);
    assert_eq!(q.tools.as_ref().map(|t| t.len()), Some(1));
    assert!(text_of(&q.response_format).contains("sre2_agent_read_schema"));
    let report = worker_run_request(AgentRole::Sre1, WorkerStage::Report, "state".to_string()).unwrap();
    assert!(report.tools.is_none());

    let done = answer(false);
    assert_eq!(structuring_input(AgentRole::Sre1, WorkerStage::Read, "m", &done).unwrap(), "done");
    assert_eq!(structuring_input(AgentRole::Sre1, WorkerStage::Report, "state", &done).unwrap(), "state");
    let sre2 = structuring_input(AgentRole::Sre2, WorkerStage::Commit, "m", &done).unwrap();
    assert!(sre2.starts_with("answer JSON schema field details:commit:"));
    let mut empty = answer(false);
    empty.choices[0].message.content = None;
    match structuring_input(AgentRole::Sre2, WorkerStage::Write, "m", &empty) {
        Err(AppError::StructureFinalOutputFromRaw(m)) => assert_eq!(m, "couldn't parse final answer (run_write)"),
        _ => panic!("an answer without text was structured"),
    }
}
