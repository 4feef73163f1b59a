//! Runtime engine for an autonomous agent: per-round tool validation, the
//! completion round, the iteration scheduler and the budget ledger, with the
//! decisions of each stated as contracts and proved.

pub mod agent;
pub mod agent_loop;
pub mod api;
pub mod claim_manager;
pub mod codegen;
pub mod completion_evaluated_prompt;
pub mod error;
pub mod mcp_server;
pub mod message;
pub mod repeating_prompt_stream;
pub mod telemetry;
pub mod validation;
