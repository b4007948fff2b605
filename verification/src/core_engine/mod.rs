//! The agent engine: agent structures, machines and engines, and the
//! built-in values of the team.
pub mod errors;
pub mod agents;
pub mod prompts;
pub mod machine;
pub mod commits;
pub mod constants;
pub mod headers;
pub mod tool_loop;
pub mod worker_runs;
