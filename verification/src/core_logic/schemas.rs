//! The structured-output schemas of the agent nodes: each field with the
//! instruction that tells the model what to put in it.
use vstd::prelude::*;
use crate::keyed::StrKeyed;

verus! {

/// The text of the fields of a schema, in walking order: `name:instruction` each.
pub open spec fn schema_fields_text(s: Seq<(Seq<char>, Seq<char>)>) -> Seq<char>
    decreases s.len(),
{
    if s.len() == 0 {
        Seq::empty()
    } else {
        schema_fields_text(s.drop_last()) + s.last().0 + ":"@ + s.last().1
    }
}

/// The schema written out for a prompt: `answer JSON schema field details:` then each field.
pub fn get_schema_fields(schema_func: &StrKeyed<String>) -> (r: String)
    ensures
        r@ == "answer JSON schema field details:"@ + schema_fields_text(schema_func@),
{
    let mut schema_prompt = String::from_str("answer JSON schema field details:");
    let mut i: usize = 0;
    let n = schema_func.len();
    while i < n
        invariant
            n == schema_func@.len(),
            i <= n,
            schema_prompt@ == "answer JSON schema field details:"@ + schema_fields_text(schema_func@.take(i as int)),
        decreases n - i,
    {
        let (k, v) = schema_func.entry(i);
        assert(schema_func@.take(i + 1).drop_last() =~= schema_func@.take(i as int));
        schema_prompt.append(k.as_str());
        schema_prompt.append(":");
        schema_prompt.append(v.as_str());
        i = i + 1;
    }
    assert(schema_func@.take(n as int) =~= schema_func@);
    schema_prompt
}

/// The instruction of the `sre1_agent` field of `human_request_agent_schema`.
pub const HUMAN_REQUEST_AGENT_SCHEMA_SRE1_AGENT: &'static str = "a unique list of instructions [...,...] for sre1_agent, otherwise leave it empty [] if it concerning sre2_agent. if sre2_agent task leave this empty. make sure it is valid JSON str.";

/// The instruction of the `sre2_agent` field of `human_request_agent_schema`.
pub const HUMAN_REQUEST_AGENT_SCHEMA_SRE2_AGENT: &'static str = "a unique list of instructions [...,...] for sre2_agent, otherwise leave it empty [] if it concerning sre1_agent. if sre1_agent task leave this empty. make sure it is valid JSON str.";

/// The fields of `human_request_agent_schema`, each with its instruction.
pub fn human_request_agent_schema() -> (r: StrKeyed<String>)
    ensures
        r@ == seq![("sre1_agent"@, HUMAN_REQUEST_AGENT_SCHEMA_SRE1_AGENT@), ("sre2_agent"@, HUMAN_REQUEST_AGENT_SCHEMA_SRE2_AGENT@)],
{
    let mut m: StrKeyed<String> = StrKeyed::new();
    m.insert(String::from_str("sre1_agent"), String::from_str(HUMAN_REQUEST_AGENT_SCHEMA_SRE1_AGENT));
    proof {
        reveal_strlit("sre2_agent");
        reveal_strlit("sre1_agent");
        assert("sre2_agent"@[3] != "sre1_agent"@[3]);
    }
    m.insert(String::from_str("sre2_agent"), String::from_str(HUMAN_REQUEST_AGENT_SCHEMA_SRE2_AGENT));
    assert(m@ =~= seq![("sre1_agent"@, HUMAN_REQUEST_AGENT_SCHEMA_SRE1_AGENT@), ("sre2_agent"@, HUMAN_REQUEST_AGENT_SCHEMA_SRE2_AGENT@)]);
    m
}

/// The instruction of the `agent` field of `main_agent_own_task_select_agent_schema`.
pub const MAIN_AGENT_OWN_TASK_SELECT_AGENT_SCHEMA_AGENT: &'static str = r#"who's agent work you have identified that it is from: answer or "sre1_agent" or "sre2_agent". make sure it is valid JSON str."#;

/// The fields of `main_agent_own_task_select_agent_schema`, each with its instruction.
pub fn main_agent_own_task_select_agent_schema() -> (r: StrKeyed<String>)
    ensures
        r@ == seq![("agent"@, MAIN_AGENT_OWN_TASK_SELECT_AGENT_SCHEMA_AGENT@)],
{
    let mut m: StrKeyed<String> = StrKeyed::new();
    m.insert(String::from_str("agent"), String::from_str(MAIN_AGENT_OWN_TASK_SELECT_AGENT_SCHEMA_AGENT));
    assert(m@ =~= seq![("agent"@, MAIN_AGENT_OWN_TASK_SELECT_AGENT_SCHEMA_AGENT@)]);
    m
}

/// The instruction of the `agent` field of `main_agent_merge_schema`.
pub const MAIN_AGENT_MERGE_SCHEMA_AGENT: &'static str = r#"answer "sre1_agent" if the work merged is from sre1_agent otherwise answer "sre2_agent". make sure it is valid JSON str."#;

/// The fields of `main_agent_merge_schema`, each with its instruction.
pub fn main_agent_merge_schema() -> (r: StrKeyed<String>)
    ensures
        r@ == seq![("agent"@, MAIN_AGENT_MERGE_SCHEMA_AGENT@)],
{
    let mut m: StrKeyed<String> = StrKeyed::new();
    m.insert(String::from_str("agent"), String::from_str(MAIN_AGENT_MERGE_SCHEMA_AGENT));
    assert(m@ =~= seq![("agent"@, MAIN_AGENT_MERGE_SCHEMA_AGENT@)]);
    m
}

/// The instruction of the `report` field of `main_agent_report_schema`.
pub const MAIN_AGENT_REPORT_SCHEMA_REPORT: &'static str = r#"answer in report way about the task details and name the agent that has done the work and tell that the team stays available for any other request and end politely saying "Always Ready From Shibuya!". make sure it is valid JSON str."#;

/// The instruction of the `instructions` field of `main_agent_report_schema`.
pub const MAIN_AGENT_REPORT_SCHEMA_INSTRUCTIONS: &'static str = r#"answer "sre1_agent" or "sre2_agent" with instructing to merge the work of that agent. make sure it is valid JSON str."#;

/// The fields of `main_agent_report_schema`, each with its instruction.
pub fn main_agent_report_schema() -> (r: StrKeyed<String>)
    ensures
        r@ == seq![("report"@, MAIN_AGENT_REPORT_SCHEMA_REPORT@), ("instructions"@, MAIN_AGENT_REPORT_SCHEMA_INSTRUCTIONS@)],
{
    let mut m: StrKeyed<String> = StrKeyed::new();
    m.insert(String::from_str("report"), String::from_str(MAIN_AGENT_REPORT_SCHEMA_REPORT));
    proof {
        reveal_strlit("instructions");
        reveal_strlit("report");
        assert("instructions"@.len() != "report"@.len());
    }
    m.insert(String::from_str("instructions"), String::from_str(MAIN_AGENT_REPORT_SCHEMA_INSTRUCTIONS));
    assert(m@ =~= seq![("report"@, MAIN_AGENT_REPORT_SCHEMA_REPORT@), ("instructions"@, MAIN_AGENT_REPORT_SCHEMA_INSTRUCTIONS@)]);
    m
}

/// The instruction of the `agent` field of `pr_agent_own_task_select_agent_schema`.
pub const PR_AGENT_OWN_TASK_SELECT_AGENT_SCHEMA_AGENT: &'static str = r#"who's agent work you have identified that it is from: answer or "sre1_agent" or "sre2_agent". make sure it is valid JSON str."#;

/// The fields of `pr_agent_own_task_select_agent_schema`, each with its instruction.
pub fn pr_agent_own_task_select_agent_schema() -> (r: StrKeyed<String>)
    ensures
        r@ == seq![("agent"@, PR_AGENT_OWN_TASK_SELECT_AGENT_SCHEMA_AGENT@)],
{
    let mut m: StrKeyed<String> = StrKeyed::new();
    m.insert(String::from_str("agent"), String::from_str(PR_AGENT_OWN_TASK_SELECT_AGENT_SCHEMA_AGENT));
    assert(m@ =~= seq![("agent"@, PR_AGENT_OWN_TASK_SELECT_AGENT_SCHEMA_AGENT@)]);
    m
}

/// The instruction of the `agent` field of `pr_agent_own_task_pull_schema`.
pub const PR_AGENT_OWN_TASK_PULL_SCHEMA_AGENT: &'static str = r#"who's agent work you did pull the work from: answer or "sre1_agent" or "sre2_agent". make sure it is valid JSON str."#;

/// The fields of `pr_agent_own_task_pull_schema`, each with its instruction.
pub fn pr_agent_own_task_pull_schema() -> (r: StrKeyed<String>)
    ensures
        r@ == seq![("agent"@, PR_AGENT_OWN_TASK_PULL_SCHEMA_AGENT@)],
{
    let mut m: StrKeyed<String> = StrKeyed::new();
    m.insert(String::from_str("agent"), String::from_str(PR_AGENT_OWN_TASK_PULL_SCHEMA_AGENT));
    assert(m@ =~= seq![("agent"@, PR_AGENT_OWN_TASK_PULL_SCHEMA_AGENT@)]);
    m
}

/// The instruction of the `report` field of `pr_agent_report_to_main_agent_schema`.
pub const PR_AGENT_REPORT_TO_MAIN_AGENT_SCHEMA_REPORT: &'static str = "answer in report way when job is done detailing what you have done and why you believe that the task has been successfully done. make sure it is valid JSON str.";

/// The instruction of the `instructions` field of `pr_agent_report_to_main_agent_schema`.
pub const PR_AGENT_REPORT_TO_MAIN_AGENT_SCHEMA_INSTRUCTIONS: &'static str = r#"answer "sre1_agent" or "sre2_agent" with instructing to merge the work of that agent. make sure it is valid JSON str."#;

/// The fields of `pr_agent_report_to_main_agent_schema`, each with its instruction.
pub fn pr_agent_report_to_main_agent_schema() -> (r: StrKeyed<String>)
    ensures
        r@ == seq![("report"@, PR_AGENT_REPORT_TO_MAIN_AGENT_SCHEMA_REPORT@), ("instructions"@, PR_AGENT_REPORT_TO_MAIN_AGENT_SCHEMA_INSTRUCTIONS@)],
{
    let mut m: StrKeyed<String> = StrKeyed::new();
    m.insert(String::from_str("report"), String::from_str(PR_AGENT_REPORT_TO_MAIN_AGENT_SCHEMA_REPORT));
    proof {
        reveal_strlit("instructions");
        reveal_strlit("report");
        assert("instructions"@.len() != "report"@.len());
    }
    m.insert(String::from_str("instructions"), String::from_str(PR_AGENT_REPORT_TO_MAIN_AGENT_SCHEMA_INSTRUCTIONS));
    assert(m@ =~= seq![("report"@, PR_AGENT_REPORT_TO_MAIN_AGENT_SCHEMA_REPORT@), ("instructions"@, PR_AGENT_REPORT_TO_MAIN_AGENT_SCHEMA_INSTRUCTIONS@)]);
    m
}

/// The instruction of the `report` field of `sre1_agent_to_pr_agent_schema`.
pub const SRE1_AGENT_TO_PR_AGENT_SCHEMA_REPORT: &'static str = "answer in report way when job is done detailing what you have done and why you believe that the task has been successfully done. make sure it is valid JSON str.";

/// The instruction of the `instructions` field of `sre1_agent_to_pr_agent_schema`.
pub const SRE1_AGENT_TO_PR_AGENT_SCHEMA_INSTRUCTIONS: &'static str = "instruct to pull the work of agent_sre1. make sure it is valid JSON str.";

/// The fields of `sre1_agent_to_pr_agent_schema`, each with its instruction.
pub fn sre1_agent_to_pr_agent_schema() -> (r: StrKeyed<String>)
    ensures
        r@ == seq![("report"@, SRE1_AGENT_TO_PR_AGENT_SCHEMA_REPORT@), ("instructions"@, SRE1_AGENT_TO_PR_AGENT_SCHEMA_INSTRUCTIONS@)],
{
    let mut m: StrKeyed<String> = StrKeyed::new();
    m.insert(String::from_str("report"), String::from_str(SRE1_AGENT_TO_PR_AGENT_SCHEMA_REPORT));
    proof {
        reveal_strlit("instructions");
        reveal_strlit("report");
        assert("instructions"@.len() != "report"@.len());
    }
    m.insert(String::from_str("instructions"), String::from_str(SRE1_AGENT_TO_PR_AGENT_SCHEMA_INSTRUCTIONS));
    assert(m@ =~= seq![("report"@, SRE1_AGENT_TO_PR_AGENT_SCHEMA_REPORT@), ("instructions"@, SRE1_AGENT_TO_PR_AGENT_SCHEMA_INSTRUCTIONS@)]);
    m
}

/// The instruction of the `instructions` field of `sre1_agent_own_task_read_files_schema`.
pub const SRE1_AGENT_OWN_TASK_READ_FILES_SCHEMA_INSTRUCTIONS: &'static str = "string of the instructions and explanation of what have to change in the manifest that you are aware of in order to meet requirements. make sure it is valid JSON str.";

/// The instruction of the `manifest` field of `sre1_agent_own_task_read_files_schema`.
pub const SRE1_AGENT_OWN_TASK_READ_FILES_SCHEMA_MANIFEST: &'static str = r#"answer "" or if it is Kubernetes manifest write here only the content of Kubernetes manifests respecting Yaml indentation and line return that you have red and identified has necessary to modify to perform task requirements converted to Json Kubernetes manifest. Or text only if note file. make sure it is valid JSON str."#;

/// The instruction of the `file` field of `sre1_agent_own_task_read_files_schema`.
pub const SRE1_AGENT_OWN_TASK_READ_FILES_SCHEMA_FILE: &'static str = "strictly only the string path of the manifest or file you have identified has corresponding to the targetted task and that you have red and that you have been instructed to work on by deduction. make sure it is valid JSON str.";

/// The fields of `sre1_agent_own_task_read_files_schema`, each with its instruction.
pub fn sre1_agent_own_task_read_files_schema() -> (r: StrKeyed<String>)
    ensures
        r@ == seq![("instructions"@, SRE1_AGENT_OWN_TASK_READ_FILES_SCHEMA_INSTRUCTIONS@), ("manifest"@, SRE1_AGENT_OWN_TASK_READ_FILES_SCHEMA_MANIFEST@), ("file"@, SRE1_AGENT_OWN_TASK_READ_FILES_SCHEMA_FILE@)],
{
    let mut m: StrKeyed<String> = StrKeyed::new();
    m.insert(String::from_str("instructions"), String::from_str(SRE1_AGENT_OWN_TASK_READ_FILES_SCHEMA_INSTRUCTIONS));
    proof {
        reveal_strlit("manifest");
        reveal_strlit("instructions");
        assert("manifest"@.len() != "instructions"@.len());
    }
    m.insert(String::from_str("manifest"), String::from_str(SRE1_AGENT_OWN_TASK_READ_FILES_SCHEMA_MANIFEST));
    proof {
        reveal_strlit("file");
        reveal_strlit("instructions");
        assert("file"@.len() != "instructions"@.len());
        reveal_strlit("manifest");
        assert("file"@.len() != "manifest"@.len());
    }
    m.insert(String::from_str("file"), String::from_str(SRE1_AGENT_OWN_TASK_READ_FILES_SCHEMA_FILE));
    assert(m@ =~= seq![("instructions"@, SRE1_AGENT_OWN_TASK_READ_FILES_SCHEMA_INSTRUCTIONS@), ("manifest"@, SRE1_AGENT_OWN_TASK_READ_FILES_SCHEMA_MANIFEST@), ("file"@, SRE1_AGENT_OWN_TASK_READ_FILES_SCHEMA_FILE@)]);
    m
}

/// The instruction of the `manifest` field of `sre1_agent_own_task_write_files_schema`.
pub const SRE1_AGENT_OWN_TASK_WRITE_FILES_SCHEMA_MANIFEST: &'static str = "Yaml format Kubernetes manifest with applied modifications in accordance with task requirements respecting proper Yaml indentation and line return. make sure it is valid JSON str.";

/// The instruction of the `file` field of `sre1_agent_own_task_write_files_schema`.
pub const SRE1_AGENT_OWN_TASK_WRITE_FILES_SCHEMA_FILE: &'static str = "strictly only the string path of the new manifest content that you have written to. make sure it is valid JSON str.";

/// The fields of `sre1_agent_own_task_write_files_schema`, each with its instruction.
pub fn sre1_agent_own_task_write_files_schema() -> (r: StrKeyed<String>)
    ensures
        r@ == seq![("manifest"@, SRE1_AGENT_OWN_TASK_WRITE_FILES_SCHEMA_MANIFEST@), ("file"@, SRE1_AGENT_OWN_TASK_WRITE_FILES_SCHEMA_FILE@)],
{
    let mut m: StrKeyed<String> = StrKeyed::new();
    m.insert(String::from_str("manifest"), String::from_str(SRE1_AGENT_OWN_TASK_WRITE_FILES_SCHEMA_MANIFEST));
    proof {
        reveal_strlit("file");
        reveal_strlit("manifest");
        assert("file"@.len() != "manifest"@.len());
    }
    m.insert(String::from_str("file"), String::from_str(SRE1_AGENT_OWN_TASK_WRITE_FILES_SCHEMA_FILE));
    assert(m@ =~= seq![("manifest"@, SRE1_AGENT_OWN_TASK_WRITE_FILES_SCHEMA_MANIFEST@), ("file"@, SRE1_AGENT_OWN_TASK_WRITE_FILES_SCHEMA_FILE@)]);
    m
}

/// The instruction of the `commit` field of `sre1_agent_own_task_commit_schema`.
pub const SRE1_AGENT_OWN_TASK_COMMIT_SCHEMA_COMMIT: &'static str = "strictly only answer 'true' if commit has been performed succefully otherwise answer 'false'. make sure it is valid JSON str.";

/// The instruction of the `message` field of `sre1_agent_own_task_commit_schema`.
pub const SRE1_AGENT_OWN_TASK_COMMIT_SCHEMA_MESSAGE: &'static str = r#"very concise commit message that you have used to validate work done if commit true otherwise and empty string "". make sure it is valid JSON str."#;

/// The fields of `sre1_agent_own_task_commit_schema`, each with its instruction.
pub fn sre1_agent_own_task_commit_schema() -> (r: StrKeyed<String>)
    ensures
        r@ == seq![("commit"@, SRE1_AGENT_OWN_TASK_COMMIT_SCHEMA_COMMIT@), ("message"@, SRE1_AGENT_OWN_TASK_COMMIT_SCHEMA_MESSAGE@)],
{
    let mut m: StrKeyed<String> = StrKeyed::new();
    m.insert(String::from_str("commit"), String::from_str(SRE1_AGENT_OWN_TASK_COMMIT_SCHEMA_COMMIT));
    proof {
        reveal_strlit("message");
        reveal_strlit("commit");
        assert("message"@.len() != "commit"@.len());
    }
    m.insert(String::from_str("message"), String::from_str(SRE1_AGENT_OWN_TASK_COMMIT_SCHEMA_MESSAGE));
    assert(m@ =~= seq![("commit"@, SRE1_AGENT_OWN_TASK_COMMIT_SCHEMA_COMMIT@), ("message"@, SRE1_AGENT_OWN_TASK_COMMIT_SCHEMA_MESSAGE@)]);
    m
}

/// The instruction of the `report` field of `sre2_agent_to_pr_agent_schema`.
pub const SRE2_AGENT_TO_PR_AGENT_SCHEMA_REPORT: &'static str = "answer in report way when job is done detailing what you have done and why you believe that the task has been successfully done. make sure it is valid JSON str.";

/// The instruction of the `instructions` field of `sre2_agent_to_pr_agent_schema`.
pub const SRE2_AGENT_TO_PR_AGENT_SCHEMA_INSTRUCTIONS: &'static str = "instruct to pull the work of agent_sre2. make sure it is valid JSON str.";

/// The fields of `sre2_agent_to_pr_agent_schema`, each with its instruction.
pub fn sre2_agent_to_pr_agent_schema() -> (r: StrKeyed<String>)
    ensures
        r@ == seq![("report"@, SRE2_AGENT_TO_PR_AGENT_SCHEMA_REPORT@), ("instructions"@, SRE2_AGENT_TO_PR_AGENT_SCHEMA_INSTRUCTIONS@)],
{
    let mut m: StrKeyed<String> = StrKeyed::new();
    m.insert(String::from_str("report"), String::from_str(SRE2_AGENT_TO_PR_AGENT_SCHEMA_REPORT));
    proof {
        reveal_strlit("instructions");
        reveal_strlit("report");
        assert("instructions"@.len() != "report"@.len());
    }
    m.insert(String::from_str("instructions"), String::from_str(SRE2_AGENT_TO_PR_AGENT_SCHEMA_INSTRUCTIONS));
    assert(m@ =~= seq![("report"@, SRE2_AGENT_TO_PR_AGENT_SCHEMA_REPORT@), ("instructions"@, SRE2_AGENT_TO_PR_AGENT_SCHEMA_INSTRUCTIONS@)]);
    m
}

/// The instruction of the `instructions` field of `sre2_agent_own_task_read_files_schema`.
pub const SRE2_AGENT_OWN_TASK_READ_FILES_SCHEMA_INSTRUCTIONS: &'static str = "string of the instructions and explanation of what have to change in the manifest that you are aware of in order to meet requirements. make sure it is valid JSON str.";

/// The instruction of the `manifest` field of `sre2_agent_own_task_read_files_schema`.
pub const SRE2_AGENT_OWN_TASK_READ_FILES_SCHEMA_MANIFEST: &'static str = "content of Kubernetes manifests respecting Yaml indentation and line return that you have red and identified has necessary to modify to perform task requirements converted to Json Kubernetes manifest. Or text only if note file. make sure it is valid JSON str.";

/// The instruction of the `file` field of `sre2_agent_own_task_read_files_schema`.
pub const SRE2_AGENT_OWN_TASK_READ_FILES_SCHEMA_FILE: &'static str = "strictly only the string path of the manifest you have identified has corresponding to the targetted task and that you have red. make sure it is valid JSON str.";

/// The fields of `sre2_agent_own_task_read_files_schema`, each with its instruction.
pub fn sre2_agent_own_task_read_files_schema() -> (r: StrKeyed<String>)
    ensures
        r@ == seq![("instructions"@, SRE2_AGENT_OWN_TASK_READ_FILES_SCHEMA_INSTRUCTIONS@), ("manifest"@, SRE2_AGENT_OWN_TASK_READ_FILES_SCHEMA_MANIFEST@), ("file"@, SRE2_AGENT_OWN_TASK_READ_FILES_SCHEMA_FILE@)],
{
    let mut m: StrKeyed<String> = StrKeyed::new();
    m.insert(String::from_str("instructions"), String::from_str(SRE2_AGENT_OWN_TASK_READ_FILES_SCHEMA_INSTRUCTIONS));
    proof {
        reveal_strlit("manifest");
        reveal_strlit("instructions");
        assert("manifest"@.len() != "instructions"@.len());
    }
    m.insert(String::from_str("manifest"), String::from_str(SRE2_AGENT_OWN_TASK_READ_FILES_SCHEMA_MANIFEST));
    proof {
        reveal_strlit("file");
        reveal_strlit("instructions");
        assert("file"@.len() != "instructions"@.len());
        reveal_strlit("manifest");
        assert("file"@.len() != "manifest"@.len());
    }
    m.insert(String::from_str("file"), String::from_str(SRE2_AGENT_OWN_TASK_READ_FILES_SCHEMA_FILE));
    assert(m@ =~= seq![("instructions"@, SRE2_AGENT_OWN_TASK_READ_FILES_SCHEMA_INSTRUCTIONS@), ("manifest"@, SRE2_AGENT_OWN_TASK_READ_FILES_SCHEMA_MANIFEST@), ("file"@, SRE2_AGENT_OWN_TASK_READ_FILES_SCHEMA_FILE@)]);
    m
}

/// The instruction of the `manifest` field of `sre2_agent_own_task_write_files_schema`.
pub const SRE2_AGENT_OWN_TASK_WRITE_FILES_SCHEMA_MANIFEST: &'static str = "Yaml format Kubernetes manifest with applied modifications in accordance with task requirements respecting proper Yaml indentation and line return. make sure it is valid JSON str.";

/// The instruction of the `file` field of `sre2_agent_own_task_write_files_schema`.
pub const SRE2_AGENT_OWN_TASK_WRITE_FILES_SCHEMA_FILE: &'static str = "strictly only the string path of the new manifest content that you have written to. make sure it is valid JSON str.";

/// The fields of `sre2_agent_own_task_write_files_schema`, each with its instruction.
pub fn sre2_agent_own_task_write_files_schema() -> (r: StrKeyed<String>)
    ensures
        r@ == seq![("manifest"@, SRE2_AGENT_OWN_TASK_WRITE_FILES_SCHEMA_MANIFEST@), ("file"@, SRE2_AGENT_OWN_TASK_WRITE_FILES_SCHEMA_FILE@)],
{
    let mut m: StrKeyed<String> = StrKeyed::new();
    m.insert(String::from_str("manifest"), String::from_str(SRE2_AGENT_OWN_TASK_WRITE_FILES_SCHEMA_MANIFEST));
    proof {
        reveal_strlit("file");
        reveal_strlit("manifest");
        assert("file"@.len() != "manifest"@.len());
    }
    m.insert(String::from_str("file"), String::from_str(SRE2_AGENT_OWN_TASK_WRITE_FILES_SCHEMA_FILE));
    assert(m@ =~= seq![("manifest"@, SRE2_AGENT_OWN_TASK_WRITE_FILES_SCHEMA_MANIFEST@), ("file"@, SRE2_AGENT_OWN_TASK_WRITE_FILES_SCHEMA_FILE@)]);
    m
}

/// The instruction of the `commit` field of `sre2_agent_own_task_commit_schema`.
pub const SRE2_AGENT_OWN_TASK_COMMIT_SCHEMA_COMMIT: &'static str = "strictly only answer 'true' if commit has been performed succefully otherwise answer 'false'. make sure it is valid JSON str.";

/// The instruction of the `message` field of `sre2_agent_own_task_commit_schema`.
pub const SRE2_AGENT_OWN_TASK_COMMIT_SCHEMA_MESSAGE: &'static str = r#"very concise commit message that you have used to validate work done if commit true otherwise and empty string "". make sure it is valid JSON str."#;

/// The fields of `sre2_agent_own_task_commit_schema`, each with its instruction.
pub fn sre2_agent_own_task_commit_schema() -> (r: StrKeyed<String>)
    ensures
        r@ == seq![("commit"@, SRE2_AGENT_OWN_TASK_COMMIT_SCHEMA_COMMIT@), ("message"@, SRE2_AGENT_OWN_TASK_COMMIT_SCHEMA_MESSAGE@)],
{
    let mut m: StrKeyed<String> = StrKeyed::new();
    m.insert(String::from_str("commit"), String::from_str(SRE2_AGENT_OWN_TASK_COMMIT_SCHEMA_COMMIT));
    proof {
        reveal_strlit("message");
        reveal_strlit("commit");
        assert("message"@.len() != "commit"@.len());
    }
    m.insert(String::from_str("message"), String::from_str(SRE2_AGENT_OWN_TASK_COMMIT_SCHEMA_MESSAGE));
    assert(m@ =~= seq![("commit"@, SRE2_AGENT_OWN_TASK_COMMIT_SCHEMA_COMMIT@), ("message"@, SRE2_AGENT_OWN_TASK_COMMIT_SCHEMA_MESSAGE@)]);
    m
}

} // verus!
