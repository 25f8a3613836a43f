//! The driver's error taxonomy: transport failures, expander attach
//! failures, and argument validation failures.

use vstd::prelude::*;

verus! {

/// What went wrong during a driver operation.
///
/// The library itself only ever produces `Other` (argument validation); the
/// shell that talks to the real bus produces `I2c` and `Mcp` when a
/// transport or expander-attach failure surfaces.
#[derive(Debug, PartialEq, Eq)]
pub enum LcdError {
    /// A failure of the underlying two-wire bus, described in text.
    I2c(String),
    /// The expander could not be attached or driven, described in text.
    Mcp(String),
    /// A caller-supplied argument was rejected.
    Other(String),
}

impl LcdError {
    /// The descriptive text carried by the error.
    pub fn describe(&self) -> (r: &str)
        ensures
            r@ == match self {
                LcdError::I2c(m) => m@,
                LcdError::Mcp(m) => m@,
                LcdError::Other(m) => m@,
            },
    {
        match self {
            LcdError::I2c(m) => m.as_str(),
            LcdError::Mcp(m) => m.as_str(),
            LcdError::Other(m) => m.as_str(),
        }
    }
}

} // verus!
