//! What the host answers about an integer of value `v`, and the conversions
//! that the converters' steps make of those answers. The laws below hold for
//! every integer, whatever the host's latitude in classifying it.
use vstd::prelude::*;

use crate::convert::{
    signed_outcome, standard_step, strict_outcome, unsigned_outcome, Step, STRICT_INT_MAX,
    STRICT_INT_MIN,
};
use crate::error::SerializeError;
use crate::number::{is_json_integer, json_text, lemma_literal_round_trip, literal_value, JsonInt};

verus! {

/// The host's zero test.
pub open spec fn host_is_zero(v: int) -> bool {
    v == 0
}

/// What the host's unsigned classification may answer for `v`: every
/// non-negative value of the unsigned 64-bit range goes to the unsigned path,
/// every negative one to the signed path; above `u64::MAX` either is allowed.
pub open spec fn host_classifies(v: int, is_unsigned: bool) -> bool {
    &&& (0 <= v <= u64::MAX ==> is_unsigned)
    &&& (v < 0 ==> !is_unsigned)
}

/// The host's unsigned extraction: the value and a clear flag, or the
/// sentinel `u64::MAX` and a set flag.
pub open spec fn host_extract_u64(v: int) -> (u64, bool) {
    if 0 <= v <= u64::MAX {
        (v as u64, false)
    } else {
        (u64::MAX, true)
    }
}

/// The host's signed extraction: the value and a clear flag, or the sentinel
/// `-1` and a set flag.
pub open spec fn host_extract_i64(v: int) -> (i64, bool) {
    if i64::MIN <= v <= i64::MAX {
        (v as i64, false)
    } else {
        (-1i64, true)
    }
}

/// A whole run of the standard converter on an integer `v` that the host
/// classified as `is_unsigned`.
pub open spec fn standard_conversion(v: int, is_unsigned: bool) -> Result<JsonInt, SerializeError> {
    match standard_step(host_is_zero(v), is_unsigned) {
        Step::Emit(j) => Ok(j),
        Step::ExtractU64 => unsigned_outcome(host_extract_u64(v).0, host_extract_u64(v).1),
        Step::ExtractI64 => signed_outcome(host_extract_i64(v).0, host_extract_i64(v).1),
    }
}

/// A whole run of the strict converter on an integer `v`.
pub open spec fn strict_conversion(v: int) -> Result<JsonInt, SerializeError> {
    strict_outcome(host_extract_i64(v).0, host_extract_i64(v).1)
}

/// What a run writes: the literal, or the error.
pub open spec fn output(r: Result<JsonInt, SerializeError>) -> Result<Seq<u8>, SerializeError> {
    match r {
        Ok(j) => Ok(json_text(j)),
        Err(e) => Err(e),
    }
}

/// Every integer of the unsigned 64-bit range is emitted as that unsigned
/// value.
pub proof fn lemma_standard_unsigned(v: int, is_unsigned: bool)
    requires
        0 <= v <= u64::MAX,
        host_classifies(v, is_unsigned),
    ensures
        standard_conversion(v, is_unsigned) == Ok::<JsonInt, SerializeError>(
            JsonInt::Unsigned(v as u64),
        ),
{
}

/// Every negative integer down to `i64::MIN` is emitted as that signed value.
pub proof fn lemma_standard_signed(v: int, is_unsigned: bool)
    requires
        i64::MIN <= v < 0,
        host_classifies(v, is_unsigned),
    ensures
        standard_conversion(v, is_unsigned) == Ok::<JsonInt, SerializeError>(
            JsonInt::Signed(v as i64),
        ),
{
}

/// Zero, and only zero, takes the fast path: it is emitted as unsigned `0`
/// with no extraction.
pub proof fn lemma_zero_fast_path(v: int, is_unsigned: bool)
    ensures
        (standard_step(host_is_zero(v), is_unsigned) is Emit) <==> v == 0,
        v == 0 ==> standard_step(host_is_zero(v), is_unsigned) == Step::Emit(
            JsonInt::Unsigned(0),
        ),
{
}

/// An integer above `u64::MAX` or below `i64::MIN` fails with
/// `Integer64Bits`.
pub proof fn lemma_standard_too_wide(v: int, is_unsigned: bool)
    requires
        v > u64::MAX || v < i64::MIN,
        host_classifies(v, is_unsigned),
    ensures
        standard_conversion(v, is_unsigned) == Err::<JsonInt, SerializeError>(
            SerializeError::Integer64Bits,
        ),
{
}

/// Every integer of the safe range is emitted exactly by the strict converter.
pub proof fn lemma_strict_safe(v: int)
    requires
        STRICT_INT_MIN <= v <= STRICT_INT_MAX,
    ensures
        strict_conversion(v) == Ok::<JsonInt, SerializeError>(JsonInt::Signed(v as i64)),
{
}

/// Every integer outside the safe range, whether or not it fits 64 bits,
/// fails under the strict converter with `Integer53Bits`.
pub proof fn lemma_strict_unsafe(v: int)
    requires
        v < STRICT_INT_MIN || v > STRICT_INT_MAX,
    ensures
        strict_conversion(v) == Err::<JsonInt, SerializeError>(SerializeError::Integer53Bits),
{
}

/// Converting the same integer twice under the same policy writes the same
/// bytes, even where the host's classification may differ between the calls.
pub proof fn lemma_conversion_deterministic(v: int, first: bool, second: bool)
    requires
        host_classifies(v, first),
        host_classifies(v, second),
    ensures
        output(standard_conversion(v, first)) == output(standard_conversion(v, second)),
{
}

/// Whatever either converter emits for an integer is a JSON integer literal
/// that reads back as that same integer: no value is emitted wrong.
pub proof fn lemma_emitted_exactly(v: int, is_unsigned: bool)
    requires
        host_classifies(v, is_unsigned),
    ensures
        standard_conversion(v, is_unsigned) matches Ok(j) ==> is_json_integer(json_text(j))
            && literal_value(json_text(j)) == v,
        strict_conversion(v) matches Ok(j) ==> is_json_integer(json_text(j))
            && literal_value(json_text(j)) == v,
{
    lemma_literal_round_trip(v);
}

} // verus!
