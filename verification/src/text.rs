//! Decimal rendering and the `mm:ss` clock text.

use vstd::prelude::*;

verus! {

/// The character of one decimal digit.
pub open spec fn digit_char(d: int) -> char {
    if d == 0 { '0' }
    else if d == 1 { '1' }
    else if d == 2 { '2' }
    else if d == 3 { '3' }
    else if d == 4 { '4' }
    else if d == 5 { '5' }
    else if d == 6 { '6' }
    else if d == 7 { '7' }
    else if d == 8 { '8' }
    else { '9' }
}

/// The decimal text of `n`, without leading zeros (`0` is `"0"`).
pub open spec fn decimal(n: nat) -> Seq<char>
    decreases n,
{
    if n < 10 {
        seq![digit_char(n as int)]
    } else {
        decimal(n / 10).push(digit_char((n % 10) as int))
    }
}

/// The decimal text of `n`, padded with zeros on the left to at least two digits.
pub open spec fn pad2(n: nat) -> Seq<char> {
    if n < 10 {
        seq!['0'] + decimal(n)
    } else {
        decimal(n)
    }
}

/// `mm:ss` text of a number of seconds: whole minutes, a colon, the seconds left over.
pub open spec fn clock_text(seconds: nat) -> Seq<char> {
    pad2(seconds / 60) + seq![':'] + pad2(seconds % 60)
}

proof fn lemma_digit_char_injective(d: int, e: int)
    requires
        0 <= d < 10,
        0 <= e < 10,
        digit_char(d) == digit_char(e),
    ensures
        d == e,
{
}

/// The decimal text of a number is never empty.
pub proof fn lemma_decimal_nonempty(n: nat)
    ensures
        decimal(n).len() >= 1,
        n >= 10 ==> decimal(n).len() >= 2,
    decreases n,
{
    if n >= 10 {
        lemma_decimal_nonempty(n / 10);
    }
}

/// Different numbers have different decimal texts.
pub proof fn lemma_decimal_injective(n: nat, m: nat)
    requires
        decimal(n) == decimal(m),
    ensures
        n == m,
    decreases n,
{
    lemma_decimal_nonempty(n);
    lemma_decimal_nonempty(m);
    if n < 10 && m < 10 {
        assert(decimal(n)[0] == digit_char(n as int));
        assert(decimal(m)[0] == digit_char(m as int));
        lemma_digit_char_injective(n as int, m as int);
    } else if n < 10 {
        lemma_decimal_nonempty(m / 10);
    } else if m < 10 {
        lemma_decimal_nonempty(n / 10);
    } else {
        let dn = decimal(n);
        let dm = decimal(m);
        assert(dn.last() == digit_char((n % 10) as int));
        assert(dm.last() == digit_char((m % 10) as int));
        lemma_digit_char_injective((n % 10) as int, (m % 10) as int);
        assert(dn.drop_last() =~= decimal(n / 10));
        assert(dm.drop_last() =~= decimal(m / 10));
        lemma_decimal_injective(n / 10, m / 10);
    }
}

/// Whether two texts are equal, character for character.
pub fn text_eq(a: &str, b: &str) -> (res: bool)
    ensures
        res == (a@ == b@),
{
    a.to_owned() == b.to_owned()
}

/// Appends one character to a string.
#[verifier::external_body]
pub(crate) fn push_char(s: &mut String, c: char)
    ensures
        final(s)@ == old(s)@.push(c),
{
    s.push(c);
}

fn digit(d: u64) -> (c: char)
    requires
        d < 10,
    ensures
        c == digit_char(d as int),
{
    if d == 0 { '0' }
    else if d == 1 { '1' }
    else if d == 2 { '2' }
    else if d == 3 { '3' }
    else if d == 4 { '4' }
    else if d == 5 { '5' }
    else if d == 6 { '6' }
    else if d == 7 { '7' }
    else if d == 8 { '8' }
    else { '9' }
}

/// Appends the decimal text of `n` to `s`.
pub fn push_decimal(s: &mut String, n: u64)
    ensures
        final(s)@ == old(s)@ + decimal(n as nat),
    decreases n,
{
    if n >= 10 {
        push_decimal(s, n / 10);
    }
    push_char(s, digit(n % 10));
    assert(final(s)@ =~= old(s)@ + decimal(n as nat));
}

/// The decimal text of `n`.
pub fn decimal_string(n: u64) -> (res: String)
    ensures
        res@ == decimal(n as nat),
{
    let mut s = String::new();
    push_decimal(&mut s, n);
    assert(s@ =~= decimal(n as nat));
    s
}

fn push_pad2(s: &mut String, n: u64)
    ensures
        final(s)@ == old(s)@ + pad2(n as nat),
{
    if n < 10 {
        push_char(s, '0');
    }
    push_decimal(s, n);
    assert(final(s)@ =~= old(s)@ + pad2(n as nat));
}

/// Formats a number of seconds as `mm:ss`: minutes padded to two digits
/// (more digits when there are more than 99 minutes), then the seconds
/// of the last minute, padded to two digits.
pub fn format_duration(seconds: u64) -> (res: String)
    ensures
        res@ == clock_text(seconds as nat),
{
    let minutes = seconds / 60;
    let secs = seconds % 60;
    let mut s = String::new();
    push_pad2(&mut s, minutes);
    push_char(&mut s, ':');
    push_pad2(&mut s, secs);
    assert(s@ =~= clock_text(seconds as nat));
    s
}

/// The seconds of a clock text are always two digits, after the last colon:
/// the text is at least `mm:ss` long.
pub proof fn law_clock_text_shape(seconds: nat)
    ensures
        pad2(seconds % 60).len() == 2,
        clock_text(seconds).len() >= 5,
        clock_text(seconds)[clock_text(seconds).len() - 3] == ':',
{
    let m = seconds / 60;
    let r = seconds % 60;
    lemma_decimal_nonempty(m);
    lemma_decimal_nonempty(r);
    if r >= 10 {
        assert(decimal(r) == decimal(r / 10).push(digit_char((r % 10) as int)));
        assert(r / 10 < 10);
        assert(decimal(r / 10).len() == 1);
    }
    let t = clock_text(seconds);
    assert(pad2(m).len() >= 2);
    assert(t == pad2(m) + seq![':'] + pad2(r));
    assert(t[t.len() - 3] == (pad2(m) + seq![':'])[pad2(m).len() as int]);
}

} // verus!
