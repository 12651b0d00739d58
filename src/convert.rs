use vstd::prelude::*;

use crate::error::SerializeError;
use crate::number::JsonInt;

verus! {

/// Smallest integer that strict mode emits: -(2^53 - 1).
pub const STRICT_INT_MIN: i64 = -9007199254740991;

/// Largest integer that strict mode emits: 2^53 - 1.
pub const STRICT_INT_MAX: i64 = 9007199254740991;

/// What a converter asks of the host next.
#[derive(Debug, Clone, Copy, PartialEq, Eq)]
pub enum Step {
    /// Nothing to read: emit this value.
    Emit(JsonInt),
    /// Read the integer as an unsigned 64-bit value.
    ExtractU64,
    /// Read the integer as a signed 64-bit value.
    ExtractI64,
}

/// The first step of the standard converter, from the host's zero test and
/// its unsigned classification.
pub open spec fn standard_step(is_zero: bool, is_unsigned: bool) -> Step {
    if is_zero {
        Step::Emit(JsonInt::Unsigned(0))
    } else if is_unsigned {
        Step::ExtractU64
    } else {
        Step::ExtractI64
    }
}

/// Result of the standard converter after an unsigned extraction that gave
/// `value`, with the host's failure flag `failed`. Only the sentinel together
/// with the flag is an overflow.
pub open spec fn unsigned_outcome(value: u64, failed: bool) -> Result<JsonInt, SerializeError> {
    if value == u64::MAX && failed {
        Err(SerializeError::Integer64Bits)
    } else {
        Ok(JsonInt::Unsigned(value))
    }
}

/// Result of the standard converter after a signed extraction.
pub open spec fn signed_outcome(value: i64, failed: bool) -> Result<JsonInt, SerializeError> {
    if value == -1 && failed {
        Err(SerializeError::Integer64Bits)
    } else {
        Ok(JsonInt::Signed(value))
    }
}

/// Result of the strict converter after a signed extraction.
pub open spec fn strict_outcome(value: i64, failed: bool) -> Result<JsonInt, SerializeError> {
    if value == -1 && failed {
        Err(SerializeError::Integer53Bits)
    } else if value < STRICT_INT_MIN || value > STRICT_INT_MAX {
        Err(SerializeError::Integer53Bits)
    } else {
        Ok(JsonInt::Signed(value))
    }
}

/// Converter for the standard policy: any integer that fits a signed or an
/// unsigned 64-bit word, in the narrowest of the two that holds it.
///
/// It is built from the two cheap tests that the host answers without an
/// extraction; `first_step` then says which extraction, if any, to make, and
/// `finish_unsigned` or `finish_signed` decides on what it gave.
#[derive(Debug, Clone, Copy)]
pub struct IntSerializer {
    pub is_zero: bool,
    pub is_unsigned: bool,
}

impl IntSerializer {
    pub fn new(is_zero: bool, is_unsigned: bool) -> (r: Self)
        ensures
            r.is_zero == is_zero,
            r.is_unsigned == is_unsigned,
    {
        IntSerializer { is_zero, is_unsigned }
    }

    /// Zero is emitted at once; otherwise the unsigned classification picks
    /// the extraction.
    pub fn first_step(&self) -> (r: Step)
        ensures
            r == standard_step(self.is_zero, self.is_unsigned),
    {
        if self.is_zero {
            Step::Emit(JsonInt::Unsigned(0))
        } else if self.is_unsigned {
            Step::ExtractU64
        } else {
            Step::ExtractI64
        }
    }

    /// Decides on an unsigned extraction: `u64::MAX` with the failure flag set
    /// is an overflow, anything else a value to emit.
    pub fn finish_unsigned(&self, value: u64, failed: bool) -> (r: Result<JsonInt, SerializeError>)
        ensures
            r == unsigned_outcome(value, failed),
    {
        if value == u64::MAX && failed {
            Err(SerializeError::Integer64Bits)
        } else {
            Ok(JsonInt::Unsigned(value))
        }
    }

    /// Decides on a signed extraction: `-1` with the failure flag set is an
    /// overflow, anything else (a genuine `-1` too) a value to emit.
    pub fn finish_signed(&self, value: i64, failed: bool) -> (r: Result<JsonInt, SerializeError>)
        ensures
            r == signed_outcome(value, failed),
    {
        if value == -1 && failed {
            Err(SerializeError::Integer64Bits)
        } else {
            Ok(JsonInt::Signed(value))
        }
    }
}

/// Converter for the strict policy: only integers in
/// `[STRICT_INT_MIN, STRICT_INT_MAX]` are emitted. It always reads the
/// integer as a signed 64-bit value, since the safe range lies within that
/// window, and hands the result to `serialize`.
#[derive(Debug, Clone, Copy)]
pub struct Int53Serializer {}

impl Int53Serializer {
    pub fn new() -> (r: Self) {
        Int53Serializer {}
    }

    /// Decides on a signed extraction: an overflow (`-1` with the failure
    /// flag set) or a value outside the safe range is refused, anything else
    /// emitted.
    pub fn serialize(&self, value: i64, failed: bool) -> (r: Result<JsonInt, SerializeError>)
        ensures
            r == strict_outcome(value, failed),
    {
        if value == -1 {
            if !failed {
                Ok(JsonInt::Signed(value))
            } else {
                Err(SerializeError::Integer53Bits)
            }
        } else if value < STRICT_INT_MIN || value > STRICT_INT_MAX {
            Err(SerializeError::Integer53Bits)
        } else {
            Ok(JsonInt::Signed(value))
        }
    }
}

} // verus!
