//! Readings of configuration text: blankness and unsigned decimal numbers.

use vstd::prelude::*;

verus! {

/// The texts in the outcome of reading something.
pub open spec fn text_outcome(outcome: Result<String, String>) -> Result<Seq<char>, Seq<char>> {
    match outcome {
        Ok(text) => Ok(text@),
        Err(text) => Err(text@),
    }
}

/// The characters with Unicode's `White_Space` property.
pub open spec fn white_space(c: char) -> bool {
    let n = c as u32;
    ||| 0x09 <= n <= 0x0d
    ||| n == 0x20
    ||| n == 0x85
    ||| n == 0xa0
    ||| n == 0x1680
    ||| 0x2000 <= n <= 0x200a
    ||| n == 0x2028
    ||| n == 0x2029
    ||| n == 0x202f
    ||| n == 0x205f
    ||| n == 0x3000
}

/// A text is blank when trimming white space off both ends leaves nothing.
pub open spec fn blank(s: Seq<char>) -> bool {
    forall|i: int| 0 <= i < s.len() ==> white_space(#[trigger] s[i])
}

/// Calls `char::is_whitespace`, which answers by Unicode's `White_Space`
/// property. The contract claims that the property holds of exactly the
/// characters that `white_space` lists.
#[verifier::external_body]
fn is_white_space(c: char) -> (r: bool)
    ensures
        r == white_space(c),
{
    c.is_whitespace()
}

/// Tells whether `s` holds nothing but white space.
pub fn is_blank(s: &str) -> (r: bool)
    ensures
        r == blank(s@),
{
    for c in it: s.chars()
        invariant
            it.seq() == s@,
            blank(s@.take(it.index())),
    {
        assert(s@[it.index()] == c);
        if !is_white_space(c) {
            return false;
        }
    }
    assert(s@.take(s@.len() as int) == s@);
    true
}

/// The ten ASCII digits.
pub open spec fn digit(c: char) -> bool {
    '0' <= c <= '9'
}

/// The number that a run of digits denotes in base ten.
pub open spec fn decimal_value(digits: Seq<char>) -> nat
    decreases digits.len(),
{
    if digits.len() == 0 {
        0
    } else {
        (decimal_value(digits.drop_last()) * 10 + (digits.last() as int - '0' as int)) as nat
    }
}

/// What comes after the sign of `s`, if it has one.
pub open spec fn after_sign(s: Seq<char>) -> Seq<char> {
    if s.len() > 0 && s[0] == '+' {
        s.skip(1)
    } else {
        s
    }
}

/// The number that `s` denotes: one or more digits, with an optional `+` before
/// them and nothing else.
pub open spec fn unsigned(s: Seq<char>) -> Option<nat> {
    let digits = after_sign(s);
    if digits.len() > 0 && (forall|i: int| 0 <= i < digits.len() ==> digit(#[trigger] digits[i])) {
        Some(decimal_value(digits))
    } else {
        None
    }
}

/// What `s` denotes as a `u64`; numbers that do not fit denote nothing.
pub open spec fn unsigned_u64(s: Seq<char>) -> Option<u64> {
    match unsigned(s) {
        Some(n) => if n <= u64::MAX {
            Some(n as u64)
        } else {
            None
        },
        None => None,
    }
}

/// What `s` denotes as a `u32`; numbers that do not fit denote nothing.
pub open spec fn unsigned_u32(s: Seq<char>) -> Option<u32> {
    match unsigned(s) {
        Some(n) => if n <= u32::MAX {
            Some(n as u32)
        } else {
            None
        },
        None => None,
    }
}

/// Calls `u64::from_str`, through `str::parse`. The contract claims that it takes
/// an optional `+` followed by digits only, gives their value, and refuses
/// everything else, numbers above `u64::MAX` included.
#[verifier::external_body]
pub(crate) fn parse_u64(s: &str) -> (r: Option<u64>)
    ensures
        r == unsigned_u64(s@),
{
    s.parse::<u64>().ok()
}

/// Calls `u32::from_str`, through `str::parse`. The contract claims that it takes
/// an optional `+` followed by digits only, gives their value, and refuses
/// everything else, numbers above `u32::MAX` included.
#[verifier::external_body]
pub(crate) fn parse_u32(s: &str) -> (r: Option<u32>)
    ensures
        r == unsigned_u32(s@),
{
    s.parse::<u32>().ok()
}

/// A text is blank exactly when each part of it is. What is visible in ASCII is never
/// white space, and spaces, tabs and line ends always are.
pub proof fn blank_means_nothing_visible(a: Seq<char>, b: Seq<char>, c: char)
    ensures
        blank(a + b) <==> blank(a) && blank(b),
        blank(seq![c]) <==> white_space(c),
        blank(Seq::empty()),
        '!' <= c <= '~' ==> !white_space(c),
        c == ' ' || c == '\t' || c == '\n' || c == '\r' ==> white_space(c),
{
    if blank(a + b) {
        assert forall|i: int| 0 <= i < a.len() implies white_space(#[trigger] a[i]) by {
            assert((a + b)[i] == a[i]);
        }
        assert forall|i: int| 0 <= i < b.len() implies white_space(#[trigger] b[i]) by {
            assert((a + b)[a.len() + i] == b[i]);
        }
    }
    assert(seq![c][0] == c);
}

/// `n` in base ten, without leading zeros.
pub open spec fn decimal_text(n: nat) -> Seq<char>
    decreases n,
{
    let last = ('0' as int + n % 10) as char;
    if n < 10 {
        seq![last]
    } else {
        decimal_text(n / 10).push(last)
    }
}

/// A number in base ten is made of digits and denotes itself.
proof fn lemma_decimal_text(n: nat)
    ensures
        decimal_text(n).len() > 0,
        forall|i: int| 0 <= i < decimal_text(n).len() ==> digit(#[trigger] decimal_text(n)[i]),
        decimal_value(decimal_text(n)) == n,
    decreases n,
{
    reveal_with_fuel(decimal_value, 2);
    if n >= 10 {
        lemma_decimal_text(n / 10);
        assert(decimal_text(n).drop_last() == decimal_text(n / 10));
    }
}

/// A number that is written in base ten reads back as it was, with or without a sign in
/// front, as long as it fits. Where it does not fit it is not read at all.
pub proof fn numbers_read_back(n: nat)
    ensures
        ({
            let (plain, signed) = (decimal_text(n), seq!['+'] + decimal_text(n));
            &&& unsigned(plain) == Some(n)
            &&& unsigned(signed) == Some(n)
            &&& unsigned_u64(plain) is Some <==> n <= u64::MAX
            &&& n <= u64::MAX ==> unsigned_u64(plain)->0 == n
            &&& unsigned_u32(plain) is Some <==> n <= u32::MAX
            &&& n <= u32::MAX ==> unsigned_u32(plain)->0 == n
        }),
{
    lemma_decimal_text(n);
    assert((seq!['+'] + decimal_text(n)).skip(1) == decimal_text(n));
}

/// A text with anything but digits in it, a sign in front excepted, is no number. Nor is
/// one without digits.
pub proof fn only_digits_are_read(s: Seq<char>, i: int)
    requires
        0 <= i < s.len(),
        !digit(s[i]),
        i > 0 || s[i] != '+' || s.len() == 1,
    ensures
        unsigned(s) is None,
        unsigned(Seq::empty()) is None,
{
    let digits = after_sign(s);
    if digits.len() > 0 {
        assert(!digit(digits[i - (s.len() - digits.len())]));
    }
}

} // verus!
