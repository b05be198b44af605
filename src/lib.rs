//! Conversational step-flow engine for vehicle-part requests: the flow
//! table, input validation, catalog pagination, the step ledger and the
//! orchestration of each inbound event.

pub mod text;
pub mod flow;
pub mod structs;
pub mod validation;
pub mod pagination;
pub mod store;
pub mod orchestrator;
pub mod envelope;
