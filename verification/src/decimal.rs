//! Unsigned decimal text: an optional `+` sign, then ASCII digits and
//! nothing else.

use vstd::prelude::*;

verus! {

/// `c` is one of the ASCII digits `0` to `9`.
pub open spec fn is_digit(c: char) -> bool {
    '0' <= c <= '9'
}

/// The number that the digit `c` stands for.
pub open spec fn digit_value(c: char) -> nat
    recommends
        is_digit(c),
{
    (c as int - '0' as int) as nat
}

/// Every character of `s` is an ASCII digit.
pub open spec fn all_digits(s: Seq<char>) -> bool {
    forall|i: int| 0 <= i < s.len() ==> is_digit(#[trigger] s[i])
}

/// The number that a run of digits denotes, most significant digit first.
pub open spec fn decimal_value(digits: Seq<char>) -> nat
    decreases digits.len(),
{
    if digits.len() == 0 {
        0
    } else {
        decimal_value(digits.drop_last()) * 10 + digit_value(digits.last())
    }
}

/// `s` without its leading `+`, if it has one.
pub open spec fn unsigned_part(s: Seq<char>) -> Seq<char> {
    if s.len() > 0 && s[0] == '+' {
        s.drop_first()
    } else {
        s
    }
}

/// `s` is an optional `+`, then at least one digit and nothing else.
pub open spec fn is_decimal(s: Seq<char>) -> bool {
    unsigned_part(s).len() > 0 && all_digits(unsigned_part(s))
}

/// `s` is decimal text whose value fits in 64 bits.
pub open spec fn is_decimal_u64(s: Seq<char>) -> bool {
    is_decimal(s) && decimal_value(unsigned_part(s)) <= u64::MAX
}

/// A longer run of digits never denotes less than one of its prefixes.
pub proof fn lemma_prefix_value_le(digits: Seq<char>, k: int)
    requires
        0 <= k <= digits.len(),
    ensures
        decimal_value(digits.take(k)) <= decimal_value(digits),
    decreases digits.len() - k,
{
    if k == digits.len() {
        assert(digits.take(k) =~= digits);
    } else {
        lemma_prefix_value_le(digits, k + 1);
        assert(digits.take(k + 1).drop_last() =~= digits.take(k));
    }
}

/// Text that holds anything but a digit, a leading `+` aside, is not
/// decimal; nor is text without a digit.
pub proof fn lemma_not_decimal(s: Seq<char>)
    ensures
        s.len() == 0 ==> !is_decimal(s),
        s.len() == 1 && s[0] == '+' ==> !is_decimal(s),
        forall|i: int| 1 <= i < s.len() && !is_digit(s[i]) ==> !is_decimal(s),
        s.len() > 0 && !is_digit(s[0]) && s[0] != '+' ==> !is_decimal(s),
{
    assert forall|i: int| 1 <= i < s.len() && !is_digit(s[i]) implies !is_decimal(s) by {
        if s[0] == '+' {
            assert(unsigned_part(s)[i - 1] == s[i]);
        } else {
            assert(unsigned_part(s)[i] == s[i]);
        }
    }
    if s.len() > 0 && !is_digit(s[0]) && s[0] != '+' {
        assert(unsigned_part(s)[0] == s[0]);
    }
}

/// Reads `text` as an unsigned 64-bit number in decimal.
pub fn parse_u64(text: &str) -> (r: Option<u64>)
    ensures
        r is Some <==> is_decimal_u64(text@),
        r matches Some(n) ==> n == decimal_value(unsigned_part(text@)),
{
    let ghost body = unsigned_part(text@);
    let mut value: u64 = 0;
    let mut first: bool = true;
    let mut signed: bool = false;
    let mut any: bool = false;
    for c in it: text.chars()
        invariant
            it.seq() == text@,
            body == unsigned_part(text@),
            first <==> it.index() == 0,
            signed <==> (it.index() > 0 && text@[0] == '+'),
            any <==> it.index() > (if signed { 1int } else { 0int }),
            all_digits(body.take(it.index() - (if signed { 1int } else { 0int }))),
            value == decimal_value(body.take(it.index() - (if signed { 1int } else { 0int }))),
    {
        let ghost k = it.index() as int;
        let ghost off = if signed { 1int } else { 0int };
        if first && c == '+' {
            signed = true;
            assert(body.take(0) =~= Seq::<char>::empty());
        } else if '0' <= c && c <= '9' {
            let digit: u64 = (c as u32 - '0' as u32) as u64;
            proof {
                assert(body[k - off] == c);
                assert(body.take(k - off + 1).drop_last() =~= body.take(k - off));
                lemma_prefix_value_le(body, k - off + 1);
            }
            let scaled = match value.checked_mul(10) {
                Some(v) => v,
                None => {
                    return None;
                },
            };
            value = match scaled.checked_add(digit) {
                Some(v) => v,
                None => {
                    return None;
                },
            };
            any = true;
        } else {
            assert(!is_digit(body[k - off]));
            return None;
        }
        first = false;
    }
    proof {
        assert(body.take(body.len() as int) =~= body);
    }
    if any {
        Some(value)
    } else {
        None
    }
}

} // verus!
