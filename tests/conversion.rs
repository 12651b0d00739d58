use json_int::{Int53Serializer, IntSerializer, JsonInt, SerializeError, Step, STRICT_INT_MAX, STRICT_INT_MIN};

// Plays the host's part for an integer that fits in i128: the zero test, the
// sign classification and the two sentinel-and-flag extractions.
fn extract_u64(v: i128) -> (u64, bool) {
    if v >= 0 && v <= u64::MAX as i128 {
        (v as u64, false)
    } else {
        (u64::MAX, true)
    }
}

fn extract_i64(v: i128) -> (i64, bool) {
    if v >= i64::MIN as i128 && v <= i64::MAX as i128 {
        (v as i64, false)
    } else {
        (-1, true)
    }
}

fn standard(v: i128) -> Result<JsonInt, SerializeError> {
    let s = IntSerializer::new(v == 0, v >= 0);
    match s.first_step() {
        Step::Emit(j) => Ok(j),
        Step::ExtractU64 => {
            let (x, failed) = extract_u64(v);
            s.finish_unsigned(x, failed)
        }
        Step::ExtractI64 => {
            let (x, failed) = extract_i64(v);
            s.finish_signed(x, failed)
        }
    }
}

fn strict(v: i128) -> Result<JsonInt, SerializeError> {
    let s = Int53Serializer::new();
    let (x, failed) = extract_i64(v);
    s.serialize(x, failed)
}

fn text(r: Result<JsonInt, SerializeError>) -> Result<String, SerializeError> {
    r.map(|j| String::from_utf8(j.to_json()).unwrap())
}

#[test]
fn end_to_end_zero() {
    assert_eq!(text(standard(0)), Ok("0".to_string()));
}

#[test]
fn end_to_end_u64_max() {
    assert_eq!(standard(u64::MAX as i128), Ok(JsonInt::Unsigned(u64::MAX)));
    assert_eq!(text(standard(18446744073709551615)), Ok("18446744073709551615".to_string()));
}

#[test]
fn end_to_end_i64_max_strict() {
    assert_eq!(strict(9223372036854775807), Err(SerializeError::Integer53Bits));
}

#[test]
fn end_to_end_strict_max_safe() {
    assert_eq!(text(strict(9007199254740991)), Ok("9007199254740991".to_string()));
}

#[test]
fn standard_unsigned_values() {
    for v in [1i128, 42, i64::MAX as i128, i64::MAX as i128 + 1, u64::MAX as i128 - 1] {
        assert_eq!(standard(v), Ok(JsonInt::Unsigned(v as u64)));
        assert_eq!(text(standard(v)), Ok(v.to_string()));
    }
}

#[test]
fn standard_signed_values() {
    for v in [-1i128, -2, -9007199254740992, i64::MIN as i128 + 1, i64::MIN as i128] {
        assert_eq!(standard(v), Ok(JsonInt::Signed(v as i64)));
        assert_eq!(text(standard(v)), Ok(v.to_string()));
    }
}

#[test]
fn standard_i64_min() {
    assert_eq!(standard(i64::MIN as i128), Ok(JsonInt::Signed(i64::MIN)));
    assert_eq!(text(standard(i64::MIN as i128)), Ok("-9223372036854775808".to_string()));
}

#[test]
fn zero_needs_no_extraction() {
    // Whatever the classification says, zero is emitted straight away.
    assert_eq!(IntSerializer::new(true, true).first_step(), Step::Emit(JsonInt::Unsigned(0)));
    assert_eq!(IntSerializer::new(true, false).first_step(), Step::Emit(JsonInt::Unsigned(0)));
    assert_eq!(IntSerializer::new(false, true).first_step(), Step::ExtractU64);
    assert_eq!(IntSerializer::new(false, false).first_step(), Step::ExtractI64);
}

#[test]
fn standard_too_wide() {
    assert_eq!(standard(u64::MAX as i128 + 1), Err(SerializeError::Integer64Bits));
    assert_eq!(standard(i64::MIN as i128 - 1), Err(SerializeError::Integer64Bits));
    assert_eq!(standard(i128::MAX), Err(SerializeError::Integer64Bits));
    assert_eq!(standard(i128::MIN), Err(SerializeError::Integer64Bits));
}

#[test]
fn too_wide_positive_on_signed_path() {
    // A host may route a value above u64::MAX to the signed extraction.
    let s = IntSerializer::new(false, false);
    assert_eq!(s.finish_signed(-1, true), Err(SerializeError::Integer64Bits));
}

#[test]
fn sentinel_without_flag_is_a_value() {
    let s = IntSerializer::new(false, true);
    assert_eq!(s.finish_unsigned(u64::MAX, false), Ok(JsonInt::Unsigned(u64::MAX)));
    assert_eq!(s.finish_unsigned(u64::MAX, true), Err(SerializeError::Integer64Bits));
    assert_eq!(s.finish_unsigned(7, true), Ok(JsonInt::Unsigned(7)));
    let s = IntSerializer::new(false, false);
    assert_eq!(s.finish_signed(-1, false), Ok(JsonInt::Signed(-1)));
    assert_eq!(s.finish_signed(-7, true), Ok(JsonInt::Signed(-7)));
}

#[test]
fn strict_safe_values() {
    for v in [1i128, -2, 123456789, -9007199254740991, 9007199254740991] {
        assert_eq!(strict(v), Ok(JsonInt::Signed(v as i64)));
    }
    assert_eq!(STRICT_INT_MIN, -9007199254740991);
    assert_eq!(STRICT_INT_MAX, 9007199254740991);
}

#[test]
fn strict_zero() {
    assert_eq!(text(strict(0)), Ok("0".to_string()));
}

#[test]
fn strict_one_past_each_bound() {
    assert_eq!(strict(9007199254740992), Err(SerializeError::Integer53Bits));
    assert_eq!(strict(-9007199254740992), Err(SerializeError::Integer53Bits));
}

#[test]
fn strict_minus_one() {
    assert_eq!(strict(-1), Ok(JsonInt::Signed(-1)));
    assert_eq!(text(strict(-1)), Ok("-1".to_string()));
    assert_eq!(Int53Serializer::new().serialize(-1, true), Err(SerializeError::Integer53Bits));
}

#[test]
fn strict_beyond_64_bits() {
    assert_eq!(strict(u64::MAX as i128 + 1), Err(SerializeError::Integer53Bits));
    assert_eq!(strict(i64::MIN as i128), Err(SerializeError::Integer53Bits));
    assert_eq!(strict(i128::MIN), Err(SerializeError::Integer53Bits));
}

#[test]
fn same_input_same_output() {
    for v in [0i128, -1, 5, u64::MAX as i128, i64::MIN as i128, u64::MAX as i128 + 1] {
        assert_eq!(text(standard(v)), text(standard(v)));
        assert_eq!(text(strict(v)), text(strict(v)));
    }
    // The classification of a value above u64::MAX does not change the outcome.
    let wide = u64::MAX as i128 + 10;
    let a = IntSerializer::new(false, true).finish_unsigned(extract_u64(wide).0, extract_u64(wide).1);
    let b = IntSerializer::new(false, false).finish_signed(extract_i64(wide).0, extract_i64(wide).1);
    assert_eq!(a, b);
}

#[test]
fn literal_digits() {
    assert_eq!(JsonInt::Unsigned(0).to_json(), b"0".to_vec());
    assert_eq!(JsonInt::Unsigned(10).to_json(), b"10".to_vec());
    assert_eq!(JsonInt::Unsigned(1000000007).to_json(), b"1000000007".to_vec());
    assert_eq!(JsonInt::Signed(0).to_json(), b"0".to_vec());
    assert_eq!(JsonInt::Signed(-10).to_json(), b"-10".to_vec());
    assert_eq!(JsonInt::Signed(i64::MAX).to_json(), b"9223372036854775807".to_vec());
}
