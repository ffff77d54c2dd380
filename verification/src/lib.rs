//! Host-local workstream navigation: the typed application boundary, the
//! lifecycle decisions of managed provider runtimes, and the confirmed state
//! cutover, with their contracts proved by Verus.

pub mod domain;
pub mod text;
pub mod ids;
pub mod sort;
pub mod state;
pub mod actions;
pub mod application;
pub mod snapshot;
pub mod facade;
pub mod browser;
pub mod cutover;
pub mod decimal;
pub mod standby;
pub mod lifecycle;
pub mod build_info;
pub mod clock;
pub mod account_shell;
pub mod observer;
pub mod observer_target;
pub mod presentation;
pub mod action_authority;
pub mod client_artifact;
pub mod snapshot_source;
pub mod proc_evidence;
pub mod handover;
pub mod orchestrator;
