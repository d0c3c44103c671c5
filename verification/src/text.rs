//! Small verified helpers for building text.

use vstd::prelude::*;
use vstd::string::*;

verus! {

/// `String::push` of the standard library. Trusted: it appends exactly the
/// given character to the end of the string.
pub assume_specification[ String::push ](s: &mut String, c: char)
    ensures
        final(s)@ == old(s)@.push(c),
;

/// `==` on `str` of the standard library. Trusted: two string slices are
/// equal exactly when they hold the same characters.
pub assume_specification[ <str as PartialEq>::eq ](a: &str, b: &str) -> (r: bool)
    ensures
        r == (a@ == b@),
;

/// The character with the given code, below 256.
pub open spec fn byte_char(code: int) -> char {
    (code as u8) as char
}

/// Appends the character with code `code` to `out`.
fn push_code(out: &mut String, code: u8)
    ensures
        final(out)@ == old(out)@.push(byte_char(code as int)),
{
    out.push(code as char);
}

/// The decimal digit for `d` (`0 <= d < 10`).
pub open spec fn digit_char(d: int) -> char {
    byte_char(48 + d)
}

/// The decimal numeral of a natural number, without leading zeros.
pub open spec fn decimal(n: nat) -> Seq<char>
    decreases n,
{
    if n < 10 {
        seq![digit_char(n as int)]
    } else {
        decimal(n / 10).push(digit_char((n % 10) as int))
    }
}

/// Appends the decimal numeral of `value` to `out`.
pub fn push_decimal(out: &mut String, value: u64)
    ensures
        final(out)@ == old(out)@ + decimal(value as nat),
    decreases value,
{
    if value >= 10 {
        push_decimal(out, value / 10);
    }
    let digit: u8 = (value % 10) as u8;
    push_code(out, 48 + digit);
    assert(final(out)@ =~= old(out)@ + decimal(value as nat));
}

/// The parts with `separator` between each two neighbours.
pub open spec fn joined(parts: Seq<Seq<char>>, separator: Seq<char>) -> Seq<char>
    decreases parts.len(),
{
    if parts.len() == 0 {
        Seq::empty()
    } else if parts.len() == 1 {
        parts[0]
    } else {
        joined(parts.drop_last(), separator) + separator + parts.last()
    }
}

/// The character sequences of a list of string slices.
pub open spec fn str_views(parts: Seq<&str>) -> Seq<Seq<char>> {
    Seq::new(parts.len(), |i: int| parts[i]@)
}

/// Appends the parts to `out` with `separator` between each two
/// neighbours.
pub fn push_joined(out: &mut String, parts: &Vec<&str>, separator: &str)
    ensures
        final(out)@ == old(out)@ + joined(str_views(parts@), separator@),
{
    let ghost views = str_views(parts@);
    let mut i: usize = 0;
    assert(views.take(0) =~= Seq::<Seq<char>>::empty());
    assert(out@ =~= old(out)@ + joined(views.take(0), separator@));
    while i < parts.len()
        invariant
            0 <= i <= parts.len(),
            views == str_views(parts@),
            views.len() == parts@.len(),
            out@ == old(out)@ + joined(views.take(i as int), separator@),
        decreases parts.len() - i,
    {
        if i > 0 {
            out.append(separator);
        }
        out.append(parts[i]);
        proof {
            let longer = views.take(i + 1);
            assert(longer.last() == parts@[i as int]@);
            assert(longer.drop_last() =~= views.take(i as int));
            assert(out@ =~= old(out)@ + joined(longer, separator@));
        }
        i = i + 1;
    }
    assert(views.take(i as int) =~= views);
}

} // verus!
