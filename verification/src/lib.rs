//! Verified core of a conversational agent backend.
//!
//! The library holds the logic of the system: the notifying proxy that
//! instruments tool invocations, the event relay that orders deliveries to the
//! caller, the tool-process supervisor's reconfiguration rules, the built-in
//! and Google Workspace tool planning and rendering, and the configuration
//! state machine.  The asynchronous plumbing around it (sockets, child
//! processes, HTTP, the language-model loop) lives outside and calls in with
//! plain values.

#![verifier::loop_isolation(false)]

pub mod auth;
pub mod bytes;
pub mod events;
pub mod google_agent;
pub mod google_tools;
pub mod ext;
pub mod json;
pub mod llm;
pub mod relay;
pub mod state;
pub mod supervisor;
pub mod tools;
pub mod wire;

use vstd::prelude::*;

verus! {

} // verus!
