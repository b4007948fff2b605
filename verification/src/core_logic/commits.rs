//! Committing an agent's work: the `git` command line that commits one file
//! on the agent's own branch, and what the command's run is reported as.
use vstd::prelude::*;
use crate::core_logic::envs_manage::env_or_empty;
use crate::core_logic::errors::AppError;
use crate::text::{last_index_of, last_segment, last_two_segments, parent_of, str_eq, trim, trim_spec};

verus! {

/// The path of the first worker's repository (`SRE1_REPO_PATH`, empty when unset).
pub fn sre1_repo_path() -> String {
    env_or_empty("SRE1_REPO_PATH")
}

/// The path of the second worker's repository (`SRE2_REPO_PATH`, empty when unset).
pub fn sre2_repo_path() -> String {
    env_or_empty("SRE2_REPO_PATH")
}

/// The first worker's own branch (`SRE1_BRANCH_OWN_REPO`, empty when unset).
pub fn sre1_branch_own_repo() -> String {
    env_or_empty("SRE1_BRANCH_OWN_REPO")
}

/// The second worker's own branch (`SRE2_BRANCH_OWN_REPO`, empty when unset).
pub fn sre2_branch_own_repo() -> String {
    env_or_empty("SRE2_BRANCH_OWN_REPO")
}

/// The repositories and branches a commit is made in.
pub struct CommitEnv {
    pub sre1_repo_path: String,
    pub sre2_repo_path: String,
    pub sre1_branch: String,
    pub sre2_branch: String,
}

impl CommitEnv {
    /// Reads the four values from the environment.
    pub fn from_env() -> (r: CommitEnv) {
        CommitEnv {
            sre1_repo_path: sre1_repo_path(),
            sre2_repo_path: sre2_repo_path(),
            sre1_branch: sre1_branch_own_repo(),
            sre2_branch: sre2_branch_own_repo(),
        }
    }
}

/// `git -C <repo> checkout <branch> && git -C <repo> add <file> && git -C <repo> commit -m "<message>"`.
pub open spec fn commit_command_text(
    repo: Seq<char>,
    branch: Seq<char>,
    file: Seq<char>,
    message: Seq<char>,
) -> Seq<char> {
    "git -C "@ + repo + " checkout "@ + branch + " && git -C "@ + repo + " add "@ + file
        + " && git -C "@ + repo + " commit -m \""@ + message + "\""@
}

/// The repository directory name that selects the first worker.
pub open spec fn sre1_repo_dir() -> Seq<char> {
    "creditizens_sre1_repo"@
}

/// The commit command for a file path: in the first worker's repository when
/// the directory holding the file is `creditizens_sre1_repo`, else in the
/// second's; the file is the path's last part, trimmed.
pub open spec fn commit_plan(
    path: Seq<char>,
    message: Seq<char>,
    sre1_repo: Seq<char>,
    sre1_branch: Seq<char>,
    sre2_repo: Seq<char>,
    sre2_branch: Seq<char>,
) -> Seq<char> {
    let file = trim_spec(last_segment(path));
    if last_segment(parent_of(path)) == sre1_repo_dir() {
        commit_command_text(sre1_repo, sre1_branch, file, message)
    } else {
        commit_command_text(sre2_repo, sre2_branch, file, message)
    }
}

fn commit_command_line(repo: &str, branch: &str, file: &str, message: &str) -> (r: String)
    ensures
        r@ == commit_command_text(repo@, branch@, file@, message@),
{
    let mut c = String::from_str("git -C ");
    c.append(repo);
    c.append(" checkout ");
    c.append(branch);
    c.append(" && git -C ");
    c.append(repo);
    c.append(" add ");
    c.append(file);
    c.append(" && git -C ");
    c.append(repo);
    c.append(" commit -m \"");
    c.append(message);
    c.append("\"");
    c
}

/// The shell command that commits the file at `file_path` with `commit_message`.
/// The path holds a `/` (the file and the directory holding it are its last two parts).
pub fn commit_work_command(file_path: &str, commit_message: &str, env: &CommitEnv) -> (r: String)
    requires
        last_index_of(file_path@, '/') >= 0,
    ensures
        r@ == commit_plan(
            file_path@,
            commit_message@,
            env.sre1_repo_path@,
            env.sre1_branch@,
            env.sre2_repo_path@,
            env.sre2_branch@,
        ),
{
    let (repo_name, filename) = last_two_segments(file_path);
    let file = trim(filename.as_str());
    proof {
        reveal_strlit("creditizens_sre1_repo");
    }
    if str_eq(repo_name.as_str(), "creditizens_sre1_repo") {
        commit_command_line(
            env.sre1_repo_path.as_str(),
            env.sre1_branch.as_str(),
            file.as_str(),
            commit_message,
        )
    } else {
        commit_command_line(
            env.sre2_repo_path.as_str(),
            env.sre2_branch.as_str(),
            file.as_str(),
            commit_message,
        )
    }
}

/// How a shell command ran: it finished (successfully or not) with its
/// output, or it could not be started.
#[derive(Debug)]
pub enum CommandRun {
    Finished { success: bool, stdout: String, stderr: String },
    FailedToStart(String),
}

/// What the commit command's run is reported as: its output when it
/// succeeded, else a `CommitCommandError` with the error output or the reason
/// it could not start.
pub fn commit_outcome(run: CommandRun) -> (r: Result<String, AppError>)
    ensures
        match run {
            CommandRun::Finished { success, stdout, stderr } => if success {
                r matches Ok(s) && s@ == stdout@
            } else {
                r matches Err(AppError::CommitCommandError(m)) && m@ == "Git command failed: "@ + stderr@
            },
            CommandRun::FailedToStart(e) => r matches Err(AppError::CommitCommandError(m)) && m@
                == "Failed to run command: "@ + e@,
        },
{
    match run {
        CommandRun::Finished { success, stdout, stderr } => {
            if success {
                Ok(stdout)
            } else {
                Err(AppError::CommitCommandError(String::from_str("Git command failed: ").concat(stderr.as_str())))
            }
        },
        CommandRun::FailedToStart(e) => Err(
            AppError::CommitCommandError(String::from_str("Failed to run command: ").concat(e.as_str())),
        ),
    }
}

} // verus!
