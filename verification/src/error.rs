//! The failures of hint execution.

use cairo_vm::vm::errors::hint_errors::HintError;
use vstd::prelude::*;

verus! {

/// The error type of the machine's hint processors. Opaque here: a
/// failure of a deeper link is carried through as it came.
#[verifier::external_type_specification]
#[verifier::external_body]
pub struct ExHintError(HintError);

/// Why the execution of a hint failed. Every failure ends the current
/// step; none is retried.
#[derive(Debug)]
pub enum HintFailure {
    /// The input range of a cheatcode could not be resolved or read.
    MemoryReadError,
    /// A cheatcode that is not available while a contract executes.
    UnsupportedCheatcode,
    /// A failure of the link that the hint was passed on to.
    Processor(HintError),
}

impl HintFailure {
    /// The words that a failure of this layer is reported with; a
    /// failure of a deeper link brings its own.
    pub open spec fn spec_message(&self) -> Option<Seq<char>> {
        match self {
            HintFailure::MemoryReadError => Some("Failed to read input data"@),
            HintFailure::UnsupportedCheatcode => Some(
                "Only `print` cheatcode is available in contracts."@,
            ),
            HintFailure::Processor(_) => None,
        }
    }

    /// The words that a failure of this layer is reported with.
    pub fn message(&self) -> (text: Option<&'static str>)
        ensures
            text is Some <==> self.spec_message() is Some,
            text is Some ==> text.unwrap()@ == self.spec_message().unwrap(),
    {
        match self {
            HintFailure::MemoryReadError => Some("Failed to read input data"),
            HintFailure::UnsupportedCheatcode => Some(
                "Only `print` cheatcode is available in contracts.",
            ),
            HintFailure::Processor(_) => None,
        }
    }
}

} // verus!
