//! Merging a worker's branch into the main repository: the `git` command line
//! for the agent named, and what the command's run is reported as.
use vstd::prelude::*;
use crate::core_logic::commits::CommandRun;
use crate::core_logic::envs_manage::env_or_empty;
use crate::core_logic::errors::AppError;
use crate::text::str_eq;

verus! {

/// The main branch (`MAIN_BRANCH`, empty when unset).
pub fn main_branch() -> String {
    env_or_empty("MAIN_BRANCH")
}

/// The first worker's branch as the main repository knows it (`SRE1_BRANCH_MAIN`).
pub fn sre1_branch_main() -> String {
    env_or_empty("SRE1_BRANCH_MAIN")
}

/// The second worker's branch as the main repository knows it (`SRE2_BRANCH_MAIN`).
pub fn sre2_branch_main() -> String {
    env_or_empty("SRE2_BRANCH_MAIN")
}

/// The path of the main repository (`MAIN_REPO_PATH`, empty when unset).
pub fn main_repo_path() -> String {
    env_or_empty("MAIN_REPO_PATH")
}

/// The repository and branches a merge is made with.
pub struct MergeEnv {
    pub main_repo_path: String,
    pub sre1_branch_main: String,
    pub sre2_branch_main: String,
}

impl MergeEnv {
    /// Reads the three values from the environment.
    pub fn from_env() -> (r: MergeEnv) {
        MergeEnv {
            main_repo_path: main_repo_path(),
            sre1_branch_main: sre1_branch_main(),
            sre2_branch_main: sre2_branch_main(),
        }
    }
}

/// `git -C <repo> merge <branch> --allow-unrelated-histories --no-edit`.
pub open spec fn merge_command_text(repo: Seq<char>, branch: Seq<char>) -> Seq<char> {
    "git -C "@ + repo + " merge "@ + branch + " --allow-unrelated-histories --no-edit"@
}

/// The refusal for an agent that has no branch to merge.
pub open spec fn unknown_merge_agent_message() -> Seq<char> {
    "Merge Agent Work Error: nothing matching any agent: sre1_agent, sre2_agent..."@
}

fn merge_command_line(repo: &str, branch: &str) -> (r: String)
    ensures
        r@ == merge_command_text(repo@, branch@),
{
    let mut c = String::from_str("git -C ");
    c.append(repo);
    c.append(" merge ");
    c.append(branch);
    c.append(" --allow-unrelated-histories --no-edit");
    c
}

/// The shell command that merges the work of `agent` (`sre1_agent` or
/// `sre2_agent`) into the main repository; a `MergeCommandError` for any other name.
pub fn merge_work_command(agent: &str, env: &MergeEnv) -> (r: Result<String, AppError>)
    ensures
        if agent@ == "sre1_agent"@ {
            r matches Ok(c) && c@ == merge_command_text(env.main_repo_path@, env.sre1_branch_main@)
        } else if agent@ == "sre2_agent"@ {
            r matches Ok(c) && c@ == merge_command_text(env.main_repo_path@, env.sre2_branch_main@)
        } else {
            r matches Err(AppError::MergeCommandError(m)) && m@ == unknown_merge_agent_message()
        },
{
    if str_eq(agent, "sre1_agent") {
        Ok(merge_command_line(env.main_repo_path.as_str(), env.sre1_branch_main.as_str()))
    } else if str_eq(agent, "sre2_agent") {
        Ok(merge_command_line(env.main_repo_path.as_str(), env.sre2_branch_main.as_str()))
    } else {
        Err(
            AppError::MergeCommandError(
                String::from_str(
                    "Merge Agent Work Error: nothing matching any agent: sre1_agent, sre2_agent...",
                ),
            ),
        )
    }
}

/// What the merge command's run is reported as: its output when it
/// succeeded, else a `MergeCommandError` with the error output or the reason
/// it could not start.
pub fn merge_outcome(run: CommandRun) -> (r: Result<String, AppError>)
    ensures
        match run {
            CommandRun::Finished { success, stdout, stderr } => if success {
                r matches Ok(s) && s@ == stdout@
            } else {
                r matches Err(AppError::MergeCommandError(m)) && m@ == "Git command failed: "@ + stderr@
            },
            CommandRun::FailedToStart(e) => r matches Err(AppError::MergeCommandError(m)) && m@
                == "Failed to run command: "@ + e@,
        },
{
    match run {
        CommandRun::Finished { success, stdout, stderr } => {
            if success {
                Ok(stdout)
            } else {
                Err(AppError::MergeCommandError(String::from_str("Git command failed: ").concat(stderr.as_str())))
            }
        },
        CommandRun::FailedToStart(e) => Err(
            AppError::MergeCommandError(String::from_str("Failed to run command: ").concat(e.as_str())),
        ),
    }
}

} // verus!
