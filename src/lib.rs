//! Host telemetry: identity facts and resource snapshots, and their text reports.

pub mod decimal;
pub mod telemetry;
pub mod report;
pub mod command;
