//! Launcher core for a desktop shell that supervises a local server process:
//! the persisted settings record, the launch specification derived from it,
//! the checks made before a spawn, and the supervisor's single slot.

pub mod config;
pub mod paths;
pub mod launch;
pub mod preflight;
pub mod supervisor;
pub mod diagnostics;
