//! Fast-forward-only synchronisation of git working copies with their
//! upstream branches: the decisions, as verified functions on plain values.

pub mod analysis;
pub mod classify;
pub mod commit;
pub mod fetch;
pub mod history;
pub mod orchestrator;
pub mod pipeline;
pub mod report;
