//! Agent-team orchestration library: message and payload construction for
//! LLM agents, structured-output schemas, tool definitions, git command
//! planning and the routing decisions between agent nodes.
use vstd::prelude::*;

pub mod json;
pub mod text;
pub mod keyed;
pub mod core_engine;
pub mod core_logic;
pub mod laws;

verus! {
}
