//! Building the user-facing message strings: verified decimal rendering of
//! the numbers that appear in them.

use vstd::prelude::*;

verus! {

/// The decimal digit character for `d % 10`.
pub open spec fn spec_digit_char(d: int) -> char {
    ((48 + (d % 10)) as u8) as char
}

/// The decimal digits of `n` (no sign, no padding), most significant first.
pub open spec fn spec_decimal(n: int) -> Seq<char>
    recommends
        n >= 0,
    decreases n,
{
    if n < 10 {
        seq![spec_digit_char(n)]
    } else {
        spec_decimal(n / 10).push(spec_digit_char(n % 10))
    }
}

/// The decimal rendering of a signed value: a minus sign, if any, then digits.
pub open spec fn spec_signed_decimal(v: int) -> Seq<char> {
    if v >= 0 {
        spec_decimal(v)
    } else {
        seq!['-'] + spec_decimal(-v)
    }
}

/// `n` rendered with at least two digits, as in a day or month of a date.
pub open spec fn spec_pad2(n: int) -> Seq<char> {
    if n < 10 {
        seq!['0'] + spec_decimal(n)
    } else {
        spec_decimal(n)
    }
}

/// `n` rendered with at least four digits, as in the year of a date.
pub open spec fn spec_pad4(n: int) -> Seq<char> {
    (if n < 1000 {
        seq!['0']
    } else {
        Seq::<char>::empty()
    }) + (if n < 100 {
        seq!['0']
    } else {
        Seq::<char>::empty()
    }) + (if n < 10 {
        seq!['0']
    } else {
        Seq::<char>::empty()
    }) + spec_decimal(n)
}

/// Relies on `String::push` of std: appends exactly the one character.
#[verifier::external_body]
pub(crate) fn push_char(s: &mut String, c: char)
    ensures
        final(s)@ == old(s)@.push(c),
{
    s.push(c)
}

fn digit_char(d: u64) -> (c: char)
    requires
        d < 10,
    ensures
        c == spec_digit_char(d as int),
{
    ((48 + d) as u8) as char
}

/// Appends the decimal digits of `n` to `s`.
pub fn push_decimal(s: &mut String, n: u64)
    ensures
        final(s)@ == old(s)@ + spec_decimal(n as int),
    decreases n,
{
    if n >= 10 {
        push_decimal(s, n / 10);
    }
    push_char(s, digit_char(n % 10));
    proof {
        assert(final(s)@ =~= old(s)@ + spec_decimal(n as int));
    }
}

/// Appends `n` padded to at least two digits.
pub fn push_pad2(s: &mut String, n: u64)
    ensures
        final(s)@ == old(s)@ + spec_pad2(n as int),
{
    if n < 10 {
        push_char(s, '0');
    }
    push_decimal(s, n);
    proof {
        assert(final(s)@ =~= old(s)@ + spec_pad2(n as int));
    }
}

/// Appends `n` padded to at least four digits.
pub fn push_pad4(s: &mut String, n: u64)
    ensures
        final(s)@ == old(s)@ + spec_pad4(n as int),
{
    if n < 1000 {
        push_char(s, '0');
    }
    if n < 100 {
        push_char(s, '0');
    }
    if n < 10 {
        push_char(s, '0');
    }
    push_decimal(s, n);
    proof {
        assert(final(s)@ =~= old(s)@ + spec_pad4(n as int));
    }
}

/// Renders a signed value in decimal.
pub fn signed_decimal_string(v: i64) -> (r: String)
    ensures
        r@ == spec_signed_decimal(v as int),
{
    let mut s = String::new();
    if v < 0 {
        push_char(&mut s, '-');
        let mag: u64 = (-(v as i128)) as u64;
        push_decimal(&mut s, mag);
    } else {
        push_decimal(&mut s, v as u64);
    }
    proof {
        assert(s@ =~= spec_signed_decimal(v as int));
    }
    s
}

} // verus!
