//! The result every command hands back to the front end.
use vstd::prelude::*;

verus! {

/// Whether a command succeeded, with an optional message.
#[derive(Debug)]
pub struct CommandResult {
    pub success: bool,
    pub message: Option<String>,
}

} // verus!
