//! Parsing of command-line arguments: two signed 64-bit decimal integers.
//!
//! A valid number is an optional sign (`+` or `-`) followed by one or more
//! ASCII decimal digits, with a value that fits in a signed 64-bit integer —
//! exactly the strings the standard decimal parse of such an integer accepts.
use vstd::prelude::*;

verus! {

/// Whether a character is an ASCII decimal digit.
pub open spec fn is_decimal_digit(c: char) -> bool {
    48 <= c as u32 <= 57
}

/// The numeric value of an ASCII decimal digit.
pub open spec fn digit_value(c: char) -> int {
    c as u32 - 48
}

/// The value of a sequence of decimal digits, most significant first; the
/// empty sequence has value zero.
pub open spec fn digits_value(s: Seq<char>) -> int
    decreases s.len(),
{
    if s.len() == 0 {
        0
    } else {
        digits_value(s.drop_last()) * 10 + digit_value(s.last())
    }
}

/// The digits of a number string: everything after the sign, when the
/// string starts with one.
pub open spec fn spec_number_body(s: Seq<char>) -> Seq<char> {
    if s.len() > 0 && (s[0] == '-' || s[0] == '+') {
        s.drop_first()
    } else {
        s
    }
}

/// Whether a number string denotes a negative value.
pub open spec fn spec_negative(s: Seq<char>) -> bool {
    s.len() > 0 && s[0] == '-'
}

/// The signed value a number string denotes.
pub open spec fn spec_signed_value(s: Seq<char>) -> int {
    if spec_negative(s) {
        -digits_value(spec_number_body(s))
    } else {
        digits_value(spec_number_body(s))
    }
}

/// Whether a string is a valid signed 64-bit decimal number: an optional
/// sign, at least one digit, nothing but digits after the sign, and a value
/// in range.
pub open spec fn is_i64_string(s: Seq<char>) -> bool {
    &&& spec_number_body(s).len() > 0
    &&& (forall|i: int|
        0 <= i < spec_number_body(s).len() ==> is_decimal_digit(#[trigger] spec_number_body(s)[i]))
    &&& i64::MIN <= spec_signed_value(s) <= i64::MAX
}

/// A sequence of digits has a non-negative value.
proof fn lemma_digits_value_nonneg(s: Seq<char>)
    requires
        forall|i: int| 0 <= i < s.len() ==> is_decimal_digit(#[trigger] s[i]),
    ensures
        digits_value(s) >= 0,
    decreases s.len(),
{
    if s.len() > 0 {
        lemma_digits_value_nonneg(s.drop_last());
    }
}

/// The value of a prefix of a digit sequence is no more than the value of
/// the whole: appending digits never shrinks the value.
proof fn lemma_digits_value_prefix_le(s: Seq<char>, n: int)
    requires
        0 <= n <= s.len(),
        forall|i: int| 0 <= i < s.len() ==> is_decimal_digit(#[trigger] s[i]),
    ensures
        digits_value(s.take(n)) <= digits_value(s),
    decreases s.len(),
{
    if n < s.len() {
        assert(s.take(n) =~= s.drop_last().take(n));
        lemma_digits_value_prefix_le(s.drop_last(), n);
        lemma_digits_value_nonneg(s.drop_last());
    } else {
        assert(s.take(n) =~= s);
    }
}

/// Parses a string as a signed 64-bit decimal integer. Returns the value
/// exactly when the string is a valid number, and an error otherwise.
#[verifier::loop_isolation(false)]
pub fn parse_i64(s: &str) -> (r: Result<i64, ()>)
    ensures
        match r {
            Ok(v) => is_i64_string(s@) && v == spec_signed_value(s@),
            Err(_) => !is_i64_string(s@),
        },
{
    let len = s.unicode_len();
    if len == 0 {
        return Err(());
    }
    let first = s.get_char(0);
    let negative = first == '-';
    let start: usize = if first == '-' || first == '+' {
        1
    } else {
        0
    };
    if start == len {
        return Err(());
    }
    let limit: u64 = if negative {
        9223372036854775808
    } else {
        9223372036854775807
    };
    let ghost body = spec_number_body(s@);
    proof {
        assert(body =~= s@.subrange(start as int, len as int));
    }
    let mut magnitude: u64 = 0;
    let mut i: usize = start;
    while i < len
        invariant
            start <= i <= len,
            magnitude <= limit,
            magnitude == digits_value(body.take(i - start)),
            forall|k: int| 0 <= k < i - start ==> is_decimal_digit(#[trigger] body[k]),
        decreases len - i,
    {
        let c = s.get_char(i);
        let code = c as u32;
        let ghost k = i - start;
        assert(body[k] == c);
        if code < 48 || code > 57 {
            return Err(());
        }
        let digit = (code - 48) as u64;
        let next = magnitude as u128 * 10 + digit as u128;
        proof {
            assert(body.take(k + 1).drop_last() =~= body.take(k));
            assert(body.take(k + 1).last() == body[k]);
            assert(next == digits_value(body.take(k + 1)));
        }
        if next > limit as u128 {
            proof {
                if is_i64_string(s@) {
                    lemma_digits_value_prefix_le(body, k + 1);
                    assert(digits_value(body) > limit);
                }
            }
            return Err(());
        }
        magnitude = next as u64;
        i = i + 1;
    }
    proof {
        assert(body.take(len - start) =~= body);
        lemma_digits_value_nonneg(body);
    }
    if negative {
        if magnitude == 9223372036854775808 {
            Ok(i64::MIN)
        } else {
            Ok(-(magnitude as i64))
        }
    } else {
        Ok(magnitude as i64)
    }
}

/// Reads the numerator and the denominator from the argument list: the
/// first and second argument after the program name, each a signed 64-bit
/// decimal number. Returns an error when an argument is missing or is not
/// such a number.
pub fn parse_arguments(args: &Vec<String>) -> (r: Result<(i64, i64), ()>)
    ensures
        match r {
            Ok((numerator, denominator)) => {
                &&& args@.len() >= 3
                &&& is_i64_string(args@[1]@)
                &&& is_i64_string(args@[2]@)
                &&& numerator == spec_signed_value(args@[1]@)
                &&& denominator == spec_signed_value(args@[2]@)
            },
            Err(_) => args@.len() < 3 || !is_i64_string(args@[1]@) || !is_i64_string(args@[2]@),
        },
{
    if args.len() < 3 {
        return Err(());
    }
    let numerator = match parse_i64(args[1].as_str()) {
        Ok(v) => v,
        Err(_) => {
            return Err(());
        },
    };
    let denominator = match parse_i64(args[2].as_str()) {
        Ok(v) => v,
        Err(_) => {
            return Err(());
        },
    };
    Ok((numerator, denominator))
}

} // verus!
