use vstd::prelude::*;

verus! {

/// Why an integer could not be converted.
#[derive(Debug, Clone, Copy, PartialEq, Eq)]
pub enum SerializeError {
    /// The magnitude fits neither a signed nor an unsigned 64-bit word.
    Integer64Bits,
    /// A valid 64-bit value outside the safe range that strict mode asks for.
    Integer53Bits,
}

} // verus!
