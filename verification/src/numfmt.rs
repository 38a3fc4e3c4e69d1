//! Decimal rendering of the numeric metadata values.
//!
//! Real-valued metadata (aperture, exposure time, focal length) is carried as
//! a whole number of millionths of the unit, so that the formatting rules can
//! be stated and proved exactly. Rounding is half-up throughout.

use vstd::prelude::*;

verus! {

/// The decimal digit character for `d`, which must lie in `0 ..= 9`.
pub open spec fn spec_digit(d: int) -> char {
    if d == 0 {
        '0'
    } else if d == 1 {
        '1'
    } else if d == 2 {
        '2'
    } else if d == 3 {
        '3'
    } else if d == 4 {
        '4'
    } else if d == 5 {
        '5'
    } else if d == 6 {
        '6'
    } else if d == 7 {
        '7'
    } else if d == 8 {
        '8'
    } else {
        '9'
    }
}

/// Base-10 rendering of a natural number, most significant digit first.
pub open spec fn dec_seq(n: nat) -> Seq<char>
    decreases n,
{
    if n < 10 {
        seq![spec_digit(n as int)]
    } else {
        dec_seq(n / 10) + seq![spec_digit((n % 10) as int)]
    }
}

/// `micro` (millionths) rendered with exactly one fractional digit,
/// rounded half-up: the rule for `{aperture}` and for slow `{shutter_speed}`.
pub open spec fn tenths_seq(micro: nat) -> Seq<char> {
    let tenths = micro / 100000 + if micro % 100000 >= 50000 {
        1nat
    } else {
        0nat
    };
    dec_seq(tenths / 10) + seq!['.', spec_digit((tenths % 10) as int)]
}

/// `micro` (millionths) rounded half-up to a whole unit:
/// the rule for `{focal_length}`.
pub open spec fn unit_seq(micro: nat) -> Seq<char> {
    dec_seq(
        micro / 1000000 + if micro % 1000000 >= 500000 {
            1nat
        } else {
            0nat
        },
    )
}

/// An exposure time of `micro` millionths of a second rendered as a shutter
/// speed: one fractional digit when at least one second, otherwise `1/N`
/// with `N` the reciprocal rounded half-up to a whole number. A zero
/// duration has no reciprocal; its `N` saturates at the largest `i32`.
pub open spec fn shutter_seq(micro: nat) -> Seq<char> {
    if micro >= 1000000 {
        tenths_seq(micro)
    } else if micro == 0 {
        seq!['1', '/'] + dec_seq(2147483647)
    } else {
        seq!['1', '/'] + dec_seq((2000000 + micro) / (2 * micro))
    }
}

/// The decimal digit character for `d < 10`.
pub fn digit_char(d: u64) -> (c: char)
    requires
        d < 10,
    ensures
        c == spec_digit(d as int),
{
    if d == 0 {
        '0'
    } else if d == 1 {
        '1'
    } else if d == 2 {
        '2'
    } else if d == 3 {
        '3'
    } else if d == 4 {
        '4'
    } else if d == 5 {
        '5'
    } else if d == 6 {
        '6'
    } else if d == 7 {
        '7'
    } else if d == 8 {
        '8'
    } else {
        '9'
    }
}

/// Base-10 rendering of `n`.
pub fn dec_chars(n: u64) -> (v: Vec<char>)
    ensures
        v@ == dec_seq(n as nat),
    decreases n,
{
    if n < 10 {
        let mut v: Vec<char> = Vec::new();
        v.push(digit_char(n));
        assert(v@ =~= dec_seq(n as nat));
        v
    } else {
        let mut v = dec_chars(n / 10);
        v.push(digit_char(n % 10));
        assert(v@ =~= dec_seq(n as nat));
        v
    }
}

/// Appends every character of `src` to `dst`.
pub fn push_all(dst: &mut Vec<char>, src: &Vec<char>)
    ensures
        final(dst)@ == old(dst)@ + src@,
{
    let mut j: usize = 0;
    while j < src.len()
        invariant
            j <= src.len(),
            dst@ == old(dst)@ + src@.take(j as int),
        decreases src.len() - j,
    {
        dst.push(src[j]);
        j = j + 1;
        assert(old(dst)@ + src@.take(j as int) =~= (old(dst)@ + src@.take(j - 1)).push(
            src@[j - 1],
        ));
    }
    assert(dst@ =~= old(dst)@ + src@);
}

/// One-fractional-digit rendering of `micro` millionths.
pub fn tenths_chars(micro: u64) -> (v: Vec<char>)
    ensures
        v@ == tenths_seq(micro as nat),
{
    let tenths: u64 = micro / 100000 + if micro % 100000 >= 50000 {
        1
    } else {
        0
    };
    let mut v = dec_chars(tenths / 10);
    v.push('.');
    v.push(digit_char(tenths % 10));
    assert(v@ =~= tenths_seq(micro as nat));
    v
}

/// Whole-unit rendering of `micro` millionths, rounded half-up.
pub fn unit_chars(micro: u64) -> (v: Vec<char>)
    ensures
        v@ == unit_seq(micro as nat),
{
    let units: u64 = micro / 1000000 + if micro % 1000000 >= 500000 {
        1
    } else {
        0
    };
    let v = dec_chars(units);
    assert(v@ =~= unit_seq(micro as nat));
    v
}

/// Shutter-speed rendering of an exposure time of `micro` millionths of a
/// second.
pub fn shutter_chars(micro: u64) -> (v: Vec<char>)
    ensures
        v@ == shutter_seq(micro as nat),
{
    if micro >= 1000000 {
        tenths_chars(micro)
    } else {
        let n: u64 = if micro == 0 {
            2147483647
        } else {
            (2000000 + micro) / (2 * micro)
        };
        let mut v: Vec<char> = Vec::new();
        v.push('1');
        v.push('/');
        let d = dec_chars(n);
        push_all(&mut v, &d);
        assert(v@ =~= shutter_seq(micro as nat));
        v
    }
}

} // verus!
