use vstd::prelude::*;

verus! {

/// A machine integer on its way to the JSON output, in the representation
/// that the converter chose for it.
#[derive(Debug, Clone, Copy, PartialEq, Eq)]
pub enum JsonInt {
    Unsigned(u64),
    Signed(i64),
}

impl JsonInt {
    /// The mathematical value carried.
    pub open spec fn value(self) -> int {
        match self {
            JsonInt::Unsigned(v) => v as int,
            JsonInt::Signed(v) => v as int,
        }
    }
}

/// ASCII code of the digit `0`.
pub const DIGIT_ZERO: u8 = 48;

/// ASCII code of the minus sign.
pub const MINUS_SIGN: u8 = 45;

/// The decimal digits of `n`, most significant first, with no leading zero
/// (zero itself is the single digit `0`).
pub open spec fn decimal(n: nat) -> Seq<u8>
    decreases n,
{
    if n < 10 {
        seq![(DIGIT_ZERO + n) as u8]
    } else {
        decimal(n / 10).push((DIGIT_ZERO + n % 10) as u8)
    }
}

/// The JSON integer literal of `v`: its decimal digits, after a minus sign
/// when it is negative.
pub open spec fn literal(v: int) -> Seq<u8> {
    if v < 0 {
        seq![MINUS_SIGN] + decimal((-v) as nat)
    } else {
        decimal(v as nat)
    }
}

/// The text that the number sink writes for `j`.
pub open spec fn json_text(j: JsonInt) -> Seq<u8> {
    literal(j.value())
}

/// Whether `b` is an ASCII decimal digit.
pub open spec fn is_digit(b: u8) -> bool {
    DIGIT_ZERO <= b && b < DIGIT_ZERO + 10
}

/// Whether `s` is a run of decimal digits as JSON writes one: at least one
/// digit, and no leading zero unless `s` is the single digit `0`.
pub open spec fn is_json_digits(s: Seq<u8>) -> bool {
    &&& s.len() >= 1
    &&& forall|i: int| 0 <= i < s.len() ==> is_digit(#[trigger] s[i])
    &&& (s[0] == DIGIT_ZERO ==> s.len() == 1)
}

/// Whether `s` follows JSON's grammar for an integer: an optional `-`, then
/// digits with no leading zero.
pub open spec fn is_json_integer(s: Seq<u8>) -> bool {
    if s.len() >= 1 && s[0] == MINUS_SIGN {
        is_json_digits(s.drop_first())
    } else {
        is_json_digits(s)
    }
}

/// The number that a run of decimal digits denotes.
pub open spec fn digits_value(s: Seq<u8>) -> int
    decreases s.len(),
{
    if s.len() == 0 {
        0
    } else {
        digits_value(s.drop_last()) * 10 + (s.last() - DIGIT_ZERO)
    }
}

/// The number that a JSON integer literal denotes.
pub open spec fn literal_value(s: Seq<u8>) -> int {
    if s.len() >= 1 && s[0] == MINUS_SIGN {
        -digits_value(s.drop_first())
    } else {
        digits_value(s)
    }
}

proof fn lemma_decimal(n: nat)
    ensures
        is_json_digits(decimal(n)),
        digits_value(decimal(n)) == n,
        decimal(n)[0] == DIGIT_ZERO <==> n == 0,
    decreases n,
{
    let d = decimal(n);
    if n < 10 {
        assert(d.drop_last() =~= Seq::<u8>::empty());
        assert(digits_value(d.drop_last()) == 0);
        assert(d.last() == DIGIT_ZERO + n);
    } else {
        let h = decimal(n / 10);
        lemma_decimal(n / 10);
        assert(d.drop_last() =~= h);
        assert(d[0] == h[0]);
        assert(d.last() == DIGIT_ZERO + n % 10);
        assert(n == (n / 10) * 10 + n % 10);
        assert forall|i: int| 0 <= i < d.len() implies is_digit(#[trigger] d[i]) by {
            if i < h.len() {
                assert(d[i] == h[i]);
            }
        }
    }
}

/// The literal written for an integer follows JSON's integer grammar and
/// reads back as that same integer.
pub proof fn lemma_literal_round_trip(v: int)
    ensures
        is_json_integer(literal(v)),
        literal_value(literal(v)) == v,
{
    if v < 0 {
        lemma_decimal((-v) as nat);
        assert(literal(v).drop_first() =~= decimal((-v) as nat));
    } else {
        lemma_decimal(v as nat);
        assert(decimal(v as nat)[0] != MINUS_SIGN);
    }
}

/// Appends the decimal digits of `n` to `out`.
fn write_decimal(n: u64, out: &mut Vec<u8>)
    ensures
        final(out)@ == old(out)@ + decimal(n as nat),
    decreases n,
{
    let d: u8 = (n % 10) as u8;
    if n >= 10 {
        write_decimal(n / 10, out);
    }
    out.push(DIGIT_ZERO + d);
    proof {
        if n >= 10 {
            assert(old(out)@ + decimal((n / 10) as nat) + seq![(DIGIT_ZERO + d) as u8]
                =~= old(out)@ + decimal(n as nat));
        }
    }
}

impl JsonInt {
    /// Writes the value as a JSON number literal: an optional leading `-`,
    /// then decimal digits with no leading zero.
    pub fn to_json(&self) -> (r: Vec<u8>)
        ensures
            r@ == json_text(*self),
    {
        let mut out: Vec<u8> = Vec::new();
        match *self {
            JsonInt::Unsigned(v) => {
                write_decimal(v, &mut out);
            },
            JsonInt::Signed(v) => {
                if v < 0 {
                    out.push(MINUS_SIGN);
                    let magnitude: u64 = (-(v as i128)) as u64;
                    write_decimal(magnitude, &mut out);
                } else {
                    write_decimal(v as u64, &mut out);
                }
            },
        }
        proof {
            assert(out@ =~= json_text(*self));
        }
        out
    }
}

} // verus!
