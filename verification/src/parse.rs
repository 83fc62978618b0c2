//! Verified parsing of non-negative decimal integer tokens.
//!
//! A token is valid when it is an optional leading `+` followed by one or
//! more decimal digits; its value must also fit the machine word.  Anything
//! else is reported as [`ConfigError::InvalidNumericParameter`] — including
//! a value too large for `usize`, which the construction contract treats as
//! a malformed parameter rather than a panic.
use vstd::arithmetic::div_mod::lemma_fundamental_div_mod;
use vstd::prelude::*;

use crate::errors::ConfigError;

verus! {

/// `c` is a decimal digit.
pub open spec fn is_digit(c: char) -> bool {
    48 <= c as u32 && c as u32 <= 57
}

/// The numeric value of a digit character.
pub open spec fn digit_val(c: char) -> nat {
    (c as u32 - 48) as nat
}

/// Every character of `s` is a decimal digit.
pub open spec fn all_digits(s: Seq<char>) -> bool {
    forall|i: int| 0 <= i < s.len() ==> is_digit(s[i])
}

/// The value of a digit string read most-significant first.
pub open spec fn digits_val(s: Seq<char>) -> nat
    decreases s.len(),
{
    if s.len() == 0 {
        0
    } else {
        digits_val(s.drop_last()) * 10 + digit_val(s.last())
    }
}

/// The digits of a numeric token: everything after one optional leading `+`.
pub open spec fn numeric_body(s: Seq<char>) -> Seq<char> {
    if s.len() > 0 && s[0] == '+' {
        s.skip(1)
    } else {
        s
    }
}

/// `s` is a well-formed non-negative decimal integer token.
pub open spec fn is_nonneg_int_token(s: Seq<char>) -> bool {
    numeric_body(s).len() > 0 && all_digits(numeric_body(s))
}

/// The numeric value of a well-formed token.
pub open spec fn token_val(s: Seq<char>) -> nat {
    digits_val(numeric_body(s))
}

/// Appending characters to a digit string never decreases its value.
proof fn lemma_digits_val_grows(s: Seq<char>, k: nat)
    requires
        k <= s.len(),
    ensures
        digits_val(s) >= digits_val(s.subrange(0, k as int)),
    decreases s.len() - k,
{
    if k == s.len() {
        assert(s.subrange(0, k as int) =~= s);
    } else {
        lemma_digits_val_grows(s, k + 1);
        assert(s.subrange(0, k + 1 as int).drop_last() =~= s.subrange(0, k as int));
        assert(digits_val(s.subrange(0, k + 1 as int)) >= digits_val(s.subrange(0, k as int)));
    }
}

/// Parses a non-negative decimal integer token.
///
/// Succeeds exactly on well-formed tokens whose value fits in `usize`, and
/// then returns that value; every other input is rejected with
/// `InvalidNumericParameter`.
pub fn parse_nonneg(s: &str) -> (r: Result<usize, ConfigError>)
    ensures
        r is Ok <==> is_nonneg_int_token(s@) && token_val(s@) <= usize::MAX,
        r is Ok ==> r->Ok_0 == token_val(s@),
        r is Err ==> r->Err_0 == ConfigError::InvalidNumericParameter,
{
    let len = s.unicode_len();
    let start: usize = if len > 0 && s.get_char(0) == '+' {
        1
    } else {
        0
    };
    proof {
        assert(s@.subrange(start as int, len as int) =~= numeric_body(s@));
    }
    if start >= len {
        return Err(ConfigError::InvalidNumericParameter);
    }
    let mut acc: usize = 0;
    let mut i: usize = start;
    while i < len
        invariant
            start <= i <= len,
            len == s@.len(),
            start == 1 ==> s@[0] == '+',
            start == 0 ==> !(s@.len() > 0 && s@[0] == '+'),
            s@.subrange(start as int, len as int) =~= numeric_body(s@),
            forall|j: int| start <= j < i ==> is_digit(s@[j]),
            acc == digits_val(s@.subrange(start as int, i as int)),
        decreases len - i,
    {
        let c = s.get_char(i);
        let u = c as u32;
        if u < 48 || u > 57 {
            proof {
                assert(!is_digit(numeric_body(s@)[i - start]));
            }
            return Err(ConfigError::InvalidNumericParameter);
        }
        let d = (u - 48) as usize;
        let ghost prefix = s@.subrange(start as int, i as int);
        let ghost extended = s@.subrange(start as int, i + 1 as int);
        proof {
            assert(extended.drop_last() =~= prefix);
            assert(digits_val(extended) == digits_val(prefix) * 10 + digit_val(s@[i as int]));
            lemma_fundamental_div_mod((usize::MAX - d) as int, 10);
        }
        if acc > (usize::MAX - d) / 10 {
            proof {
                assert(digits_val(extended) > usize::MAX);
                if is_nonneg_int_token(s@) {
                    lemma_digits_val_grows(
                        s@.subrange(start as int, len as int),
                        (i + 1 - start) as nat,
                    );
                    assert(s@.subrange(start as int, len as int).subrange(
                        0,
                        i + 1 - start as int,
                    ) =~= extended);
                    assert(token_val(s@) > usize::MAX);
                }
            }
            return Err(ConfigError::InvalidNumericParameter);
        }
        acc = acc * 10 + d;
        i = i + 1;
    }
    Ok(acc)
}

} // verus!
