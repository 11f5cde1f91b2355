//! Decimal numerals as they arrive in query strings.

use vstd::prelude::*;

verus! {

/// True for the ten ASCII decimal digits.
pub open spec fn is_digit(c: char) -> bool {
    '0' <= c <= '9'
}

/// The number a decimal digit stands for.
pub open spec fn digit_value(c: char) -> nat {
    (c as nat - '0' as nat) as nat
}

/// A decimal numeral is a non-empty run of ASCII digits: no sign, no blanks.
pub open spec fn is_decimal(s: Seq<char>) -> bool {
    s.len() > 0 && forall|i: int| 0 <= i < s.len() ==> is_digit(#[trigger] s[i])
}

/// The number that a run of digits denotes, most significant digit first.
pub open spec fn decimal_value(s: Seq<char>) -> nat
    decreases s.len(),
{
    if s.len() == 0 {
        0
    } else {
        decimal_value(s.drop_last()) * 10 + digit_value(s.last())
    }
}

/// A text that begins with a sign is no numeral: a negative number is never
/// read as one.
pub proof fn lemma_signed_is_not_decimal(text: Seq<char>)
    requires
        text.len() > 0,
        text[0] == '-' || text[0] == '+',
    ensures
        !is_decimal(text),
{
}

/// Appending digits never makes the denoted number smaller.
pub proof fn lemma_decimal_value_prefix(s: Seq<char>, k: int)
    requires
        0 <= k <= s.len(),
    ensures
        decimal_value(s.take(k)) <= decimal_value(s),
    decreases s.len() - k,
{
    if k == s.len() {
        assert(s.take(k) =~= s);
    } else {
        lemma_decimal_value_prefix(s, k + 1);
        assert(s.take(k + 1).drop_last() =~= s.take(k));
    }
}

/// Reads a decimal numeral no greater than `limit`.
///
/// Leading zeros are accepted; anything that is not a numeral, or that denotes
/// a number above `limit`, yields `None`.
pub fn parse_decimal(text: &str, limit: u32) -> (parsed: Option<u32>)
    ensures
        parsed is Some <==> is_decimal(text@) && decimal_value(text@) <= limit,
        parsed matches Some(v) ==> v == decimal_value(text@),
{
    if !text.is_ascii() {
        return None;
    }
    proof {
        vstd::string::is_ascii_spec_bytes(text);
    }
    let bytes: &[u8] = text.as_bytes();
    let n: usize = bytes.len();
    if n == 0 {
        return None;
    }
    let mut acc: u64 = 0;
    let mut i: usize = 0;
    while i < n
        invariant
            0 <= i <= n,
            n == text@.len(),
            n == bytes@.len(),
            vstd::string::is_ascii(text),
            bytes@ =~= Seq::new(text@.len(), |k: int| text@[k] as u8),
            acc == decimal_value(text@.take(i as int)),
            acc <= limit,
            forall|k: int| 0 <= k < i ==> is_digit(#[trigger] text@[k]),
        decreases n - i,
    {
        let b: u8 = bytes[i];
        if b < 48 || b > 57 {
            return None;
        }
        assert(text@.take(i + 1).drop_last() =~= text@.take(i as int));
        let next: u64 = acc * 10 + (b - 48) as u64;
        if next > limit as u64 {
            proof {
                lemma_decimal_value_prefix(text@, i + 1);
            }
            return None;
        }
        acc = next;
        i = i + 1;
    }
    assert(text@.take(n as int) =~= text@);
    Some(acc as u32)
}

} // verus!
