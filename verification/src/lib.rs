//! Core of a privileged script installer: a credential store with a
//! validation protocol, a privilege-escalation shim builder that wraps a
//! fetched script so privileged sub-commands run without prompts, and the
//! state machine that drives one installer run from fetch to terminal
//! outcome. Process spawning, networking and the UI live outside; this
//! crate holds the decisions and the text they produce.

pub mod packages;
pub mod runner;
pub mod shim;
pub mod store;
