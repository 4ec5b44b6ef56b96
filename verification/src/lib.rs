//! Core of an input-blocking countermeasure: the function-interception
//! engine with its enable/disable state machine, the detour decision
//! logic for the intercepted input and display APIs, and the process
//! discovery / lifecycle / cleanup pipeline that keeps the set of hooked
//! processes consistent with reality.
//!
//! All operating-system work (registry reads, module injection, the
//! event-trace subscription) happens outside this crate; its results are
//! handed in as plain values, and every decision taken on them is
//! verified here.

pub mod cleanup;
pub mod configuration;
pub mod detours;
pub mod discovery;
pub mod hooks;
pub mod injector_config;
pub mod log_files;
pub mod messages;
pub mod monitor;
pub mod paths;
pub mod process_set;
