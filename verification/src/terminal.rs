//! The terminal application's assistant: the object handed to the UI
//! framework when the application starts. The framework-facing trait
//! implementation (setup, view construction, canvas mode) lives with the
//! framework glue; the assistant itself carries no state.

use vstd::prelude::*;

verus! {

/// The terminal application's assistant.
#[derive(Debug)]
pub struct TerminalAssistant;

impl TerminalAssistant {
    pub fn new() -> TerminalAssistant {
        TerminalAssistant {  }
    }
}

} // verus!
