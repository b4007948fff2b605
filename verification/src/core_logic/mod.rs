//! Node-level logic: git command planning, environment lookups, prompts,
//! schemas and the routing between agent nodes.
pub mod errors;
pub mod prompts;
pub mod schemas;
pub mod envs_manage;
pub mod commits;
pub mod merge;
pub mod write_file;
pub mod dispatcher;
pub mod node_steps;
pub mod discord_notifier;
pub mod worker_flow;
