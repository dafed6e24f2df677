//! Decision logic of an interactive picker for Kubernetes contexts and
//! namespaces.
//!
//! The crate holds everything the picker decides: how a context is shown,
//! which entry the cursor starts on, and what follows a confirmed choice or a
//! failure. Reading the configuration, talking to the cluster, drawing the
//! prompt and launching `kubectl` are left to the program around it, which
//! feeds the outcomes of those actions back in as events.

pub mod cli;
pub mod cursor;
pub mod entry;
pub mod invocation;
pub mod namespaces;
pub mod outcome;
pub mod workflow;
