use vstd::prelude::*;

verus! {

/// Why an instruction did not complete.
#[derive(Debug, Clone, Copy, PartialEq, Eq, Structural)]
pub enum ForgeError {
    /// The caller does not hold the capability the instruction requires.
    Unauthorized,
    /// A counter would leave its integer range.
    Overflow,
    /// A batch supplied a handle list that does not pair with its amounts.
    MalformedBatch,
    /// A delegated call failed; its error code is passed on unchanged.
    Service(u32),
    /// Fewer delegated calls reported back than the instruction issued.
    Incomplete,
}

} // verus!
