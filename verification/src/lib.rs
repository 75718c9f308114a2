//! The backend of an operator console: it decides which tools to run for a
//! self-update and for a network scan, turns what they write into events and
//! typed results, and keeps a small registry of endpoints.

pub mod clock;
pub mod command;
pub mod containers;
pub mod endpoints;
pub mod events;
pub mod json;
pub mod mock;
pub mod scan;
pub mod scan_args;
pub mod scan_plan;
pub mod text;
pub mod update;
pub mod update_run;
