//! Three-valued flags.

use vstd::prelude::*;

verus! {

/// A flag that distinguishes "unknown" from "no".
#[derive(Debug, Clone, Copy, PartialEq, Eq, Structural)]
pub enum TriState {
    Yes,
    No,
    Unknown,
}

impl TriState {
    /// The mathematical reading of the flag: `None` stands for "unknown".
    pub open spec fn spec_option_bool(self) -> Option<bool> {
        match self {
            TriState::Yes => Some(true),
            TriState::No => Some(false),
            TriState::Unknown => None,
        }
    }

    /// `Yes` and `No` become `Some(true)` and `Some(false)`, `Unknown` becomes `None`.
    pub fn as_option_bool(&self) -> (r: Option<bool>)
        ensures
            r == self.spec_option_bool(),
    {
        match self {
            TriState::Yes => Some(true),
            TriState::No => Some(false),
            TriState::Unknown => None,
        }
    }
}

} // verus!
