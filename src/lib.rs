//! Batch build orchestration for multi-app projects: code generation under a
//! bounded worker pool, a per-app native build pipeline, and aggregation of
//! per-app outcomes into one report.
pub mod descriptor;
pub mod outcome;
pub mod scheduler;
pub mod pipeline;
pub mod dispatch;
pub mod codegen;
