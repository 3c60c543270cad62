use vstd::prelude::*;

verus! {

/// Why a cipher could not be constructed.
#[derive(Debug, Clone, Copy, PartialEq, Eq, Structural)]
pub enum BlowfishError {
    /// The key is shorter than 4 bytes or longer than 56 bytes.
    Keysize,
}

impl BlowfishError {
    /// A human-readable description of the error.
    pub fn description(&self) -> (r: &'static str)
        ensures
            r@ == "Invalid keysize"@,
    {
        match self {
            BlowfishError::Keysize => "Invalid keysize",
        }
    }
}

} // verus!
