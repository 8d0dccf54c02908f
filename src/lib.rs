//! A process-metrics service core: command parsing, per-process sampling
//! arithmetic, a per-request snapshot slot and the request life cycle.
pub mod command;
pub mod handler;
pub mod sample;
pub mod store;
