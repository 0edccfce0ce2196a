//! Scalar values of a decoded JSON page row, and the numeric readers
//! the kline row codec builds on.
//!
//! The library never sees the wire's JSON text: the process boundary
//! decodes it and hands over one [`JsonScalar`] per row element. A JSON
//! number arrives with its exact `u64` value (when it has one) and its
//! IEEE-754 double bit pattern; a JSON string arrives with its text and
//! with the bit pattern the text parses to as a double, when it does —
//! floating-point parsing is the one reading the boundary performs,
//! since the library itself holds doubles only as bit patterns. Reading
//! a `u64` out of decimal text is the library's own verified code.
use vstd::prelude::*;
use vstd::string::StrSliceExecFns;
use vstd::string::StringExecFns;

use crate::http::HttpResponseError;

verus! {

/// One scalar element of a decoded JSON page row.
#[derive(Debug, Clone)]
pub enum JsonScalar {
    /// A JSON string: its text, and the IEEE-754 double bits the text
    /// parses to, when it parses as a double.
    Str { text: String, float_bits: Option<u64> },
    /// A JSON number: its exact `u64` value when it is a nonnegative
    /// integer that fits, and its IEEE-754 double bits.
    Num { uint_value: Option<u64>, float_bits: u64 },
    /// Any other JSON value (null, boolean, array, object).
    Other,
}

/// Whether `c` is a decimal digit.
pub open spec fn is_dec_digit(c: char) -> bool {
    48 <= c as u32 <= 57
}

/// The numeric value of a decimal digit character.
pub open spec fn dec_digit_val(c: char) -> int {
    c as u32 - 48
}

/// Whether every character of `s` is a decimal digit.
pub open spec fn all_dec_digits(s: Seq<char>) -> bool {
    forall|i: int| 0 <= i < s.len() ==> is_dec_digit(s[i])
}

/// The integer a digit string denotes in base ten.
pub open spec fn dec_value(s: Seq<char>) -> int
    decreases s.len(),
{
    if s.len() == 0 {
        0
    } else {
        dec_value(s.drop_last()) * 10 + dec_digit_val(s.last())
    }
}

/// The `u64` that `str::parse::<u64>` reads from `s`: an optional
/// leading plus sign, then at least one decimal digit, denoting a value
/// that fits in 64 bits; anything else is rejected.
pub open spec fn u64_from_dec_chars(s: Seq<char>) -> Option<u64> {
    let body = if s.len() >= 1 && s[0] == '+' {
        s.subrange(1, s.len() as int)
    } else {
        s
    };
    if body.len() >= 1 && all_dec_digits(body) && dec_value(body) <= u64::MAX {
        Some(dec_value(body) as u64)
    } else {
        None
    }
}

/// A digit string denotes a nonnegative value.
proof fn lemma_dec_value_nonneg(s: Seq<char>)
    requires
        all_dec_digits(s),
    ensures
        dec_value(s) >= 0,
    decreases s.len(),
{
    if s.len() > 0 {
        assert(all_dec_digits(s.drop_last()));
        lemma_dec_value_nonneg(s.drop_last());
    }
}

/// Extending a digit string can only grow the value it denotes.
proof fn lemma_dec_value_prefix_le(s: Seq<char>, i: int)
    requires
        all_dec_digits(s),
        0 <= i <= s.len(),
    ensures
        dec_value(s.subrange(0, i)) <= dec_value(s),
    decreases s.len() - i,
{
    if i == s.len() {
        assert(s.subrange(0, i) =~= s);
    } else {
        let shorter = s.subrange(0, i);
        let longer = s.subrange(0, i + 1);
        assert(longer.drop_last() =~= shorter);
        assert(all_dec_digits(shorter));
        lemma_dec_value_nonneg(shorter);
        assert(dec_value(longer) == dec_value(shorter) * 10 + dec_digit_val(longer.last()));
        lemma_dec_value_prefix_le(s, i + 1);
    }
}

/// Reads a `u64` from decimal text, accepting exactly what
/// `str::parse::<u64>` accepts: an optional leading plus sign and at
/// least one digit, with the denoted value fitting in 64 bits.
#[verifier::loop_isolation(false)]
pub fn parse_u64_str(s: &str) -> (r: Option<u64>)
    ensures
        r == u64_from_dec_chars(s@),
{
    let n = s.unicode_len();
    let mut start: usize = 0;
    if n >= 1 && s.get_char(0) == '+' {
        start = 1;
    }
    let ghost body = if s@.len() >= 1 && s@[0] == '+' {
        s@.subrange(1, s@.len() as int)
    } else {
        s@
    };
    proof {
        assert(body.len() == n - start);
        assert(forall|j: int| 0 <= j < body.len() ==> body[j] == s@[j + start]);
    }
    if n == start {
        return None;
    }
    let mut acc: u64 = 0;
    let mut i: usize = start;
    while i < n
        invariant
            start <= i <= n,
            all_dec_digits(body.subrange(0, i - start)),
            acc == dec_value(body.subrange(0, i - start)),
        decreases n - i,
    {
        let c = s.get_char(i);
        let cv = c as u32;
        proof {
            assert(body[i - start] == c);
        }
        if !(48 <= cv && cv <= 57) {
            proof {
                assert(!is_dec_digit(body[i - start]));
            }
            return None;
        }
        let d: u64 = (cv - 48) as u64;
        let wide: u128 = acc as u128 * 10 + d as u128;
        proof {
            let prefix = body.subrange(0, i - start);
            let extended = body.subrange(0, i - start + 1);
            assert(extended.drop_last() =~= prefix);
            assert(extended.last() == body[i - start]);
            assert(dec_value(extended) == acc * 10 + d);
            assert(all_dec_digits(extended));
        }
        if wide > u64::MAX as u128 {
            proof {
                if all_dec_digits(body) {
                    lemma_dec_value_prefix_le(body, i - start + 1);
                    assert(dec_value(body) > u64::MAX);
                }
            }
            return None;
        }
        acc = wide as u64;
        i = i + 1;
    }
    proof {
        assert(body.subrange(0, n - start) =~= body);
    }
    Some(acc)
}

/// Whether `r` is the malformed-value error carrying exactly `msg`.
pub open spec fn is_unexpected_msg<T>(r: Result<T, HttpResponseError>, msg: Seq<char>) -> bool {
    r matches Err(e) && e matches HttpResponseError::Unexpected(m) && m@ == msg
}

/// The `u64` a row scalar denotes, if any: a number's exact integer
/// value, or decimal text read as `str::parse::<u64>` reads it.
pub open spec fn json_u64(v: JsonScalar) -> Option<u64> {
    match v {
        JsonScalar::Num { uint_value, .. } => uint_value,
        JsonScalar::Str { text, .. } => u64_from_dec_chars(text@),
        JsonScalar::Other => None,
    }
}

/// The IEEE-754 double bits a row scalar denotes, if any: a number's
/// bits, or the bits a string's text parses to as a double.
pub open spec fn json_f64_bits(v: JsonScalar) -> Option<u64> {
    match v {
        JsonScalar::Str { float_bits, .. } => float_bits,
        JsonScalar::Num { float_bits, .. } => Some(float_bits),
        JsonScalar::Other => None,
    }
}

/// Reads the named field as a `u64`, failing with a message naming the
/// field when the scalar denotes none.
pub fn parse_u64(value: &JsonScalar, field: &str) -> (r: Result<u64, HttpResponseError>)
    ensures
        r is Ok <==> json_u64(*value) is Some,
        r matches Ok(v) ==> json_u64(*value) == Some(v),
        (value matches JsonScalar::Num { uint_value: None, .. }) ==> is_unexpected_msg(
            r,
            "Invalid u64 number for "@ + field@,
        ),
        (value matches JsonScalar::Str { text, .. } && u64_from_dec_chars(text@) is None)
            ==> is_unexpected_msg(r, "Failed to parse u64 from string for "@ + field@),
        (value matches JsonScalar::Other) ==> is_unexpected_msg(
            r,
            "Unexpected type for "@ + field@,
        ),
{
    match value {
        JsonScalar::Num { uint_value: Some(v), .. } => Ok(*v),
        JsonScalar::Num { uint_value: None, .. } => Err(
            HttpResponseError::Unexpected(
                String::from_str("Invalid u64 number for ").concat(field),
            ),
        ),
        JsonScalar::Str { text, .. } => match parse_u64_str(text.as_str()) {
            Some(v) => Ok(v),
            None => Err(
                HttpResponseError::Unexpected(
                    String::from_str("Failed to parse u64 from string for ").concat(field),
                ),
            ),
        },
        JsonScalar::Other => Err(
            HttpResponseError::Unexpected(
                String::from_str("Unexpected type for ").concat(field),
            ),
        ),
    }
}

/// Reads the named field as IEEE-754 double bits, failing with a
/// message naming the field when the scalar denotes none.
pub fn parse_f64(value: &JsonScalar, field: &str) -> (r: Result<u64, HttpResponseError>)
    ensures
        r is Ok <==> json_f64_bits(*value) is Some,
        r matches Ok(v) ==> json_f64_bits(*value) == Some(v),
        (value matches JsonScalar::Str { float_bits: None, .. }) ==> is_unexpected_msg(
            r,
            "Failed to parse f64 from string for "@ + field@,
        ),
        (value matches JsonScalar::Other) ==> is_unexpected_msg(
            r,
            "Unexpected type for "@ + field@,
        ),
{
    match value {
        JsonScalar::Str { float_bits: Some(b), .. } => Ok(*b),
        JsonScalar::Str { float_bits: None, .. } => Err(
            HttpResponseError::Unexpected(
                String::from_str("Failed to parse f64 from string for ").concat(field),
            ),
        ),
        JsonScalar::Num { float_bits, .. } => Ok(*float_bits),
        JsonScalar::Other => Err(
            HttpResponseError::Unexpected(
                String::from_str("Unexpected type for ").concat(field),
            ),
        ),
    }
}

} // verus!
