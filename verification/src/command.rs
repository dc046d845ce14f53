//! Common pieces of command replies.

use vstd::prelude::*;

verus! {

/// The severity level a status reply carries.
#[derive(Debug, Clone, Copy, PartialEq, Eq, Structural)]
pub enum CommandResultLevel {
    /// A warning.
    Warning,
    /// An ordinary status.
    Status,
    /// An error.
    Error,
}

impl CommandResultLevel {
    /// The wire spelling of this level.
    pub fn to_str(&self) -> (r: &'static str)
        ensures
            self is Warning ==> r@ == "warning"@,
            self is Status ==> r@ == "status"@,
            self is Error ==> r@ == "error"@,
    {
        match self {
            CommandResultLevel::Warning => "warning",
            CommandResultLevel::Status => "status",
            CommandResultLevel::Error => "error",
        }
    }
}

} // verus!
