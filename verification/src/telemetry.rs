//! The lines that telemetry writes. Writing them out is left to the caller.

use crate::errors::VortexError;
use vstd::prelude::*;
use vstd::string::*;

verus! {

/// The line that announces a message on its way out.
pub fn send_line(message: &str) -> (line: String)
    ensures
        line@ == "Sending message via Mesocarp: "@ + message@,
{
    String::from_str("Sending message via Mesocarp: ").concat(message)
}

/// The line that reports a message that could not be sent.
pub fn failure_line(error: &VortexError) -> (line: String)
    ensures
        line@ == "Failed to send telemetry via Mesocarp: "@ + error.message_text(),
{
    let text = error.message();
    String::from_str("Failed to send telemetry via Mesocarp: ").concat(text.as_str())
}

} // verus!
