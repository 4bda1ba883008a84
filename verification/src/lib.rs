//! Core of a desktop shell that supervises a long-lived backend service and
//! performs one-shot invocations of an external classification script.
//!
//! The library holds the decision logic: resolving deployment paths from a
//! resource root, planning process launches with interpreter fallback,
//! classifying captured child-process output, and driving the two
//! orchestration flows (service startup and one classification request) as
//! verified step machines. The host program performs the filesystem probes
//! and process spawns that the machines ask for and feeds the results back.

pub mod classify;
pub mod errors;
pub mod invoker;
pub mod launch;
pub mod paths;
pub mod supervisor;
pub mod text;
