//! Building short strings: decimal digits, zero-padding, and the final
//! collection of characters into a `String`.

use vstd::prelude::*;

verus! {

/// The character of a decimal digit value.
pub open spec fn digit_char(d: int) -> char {
    if d == 0 {
        '0'
    } else if d == 1 {
        '1'
    } else if d == 2 {
        '2'
    } else if d == 3 {
        '3'
    } else if d == 4 {
        '4'
    } else if d == 5 {
        '5'
    } else if d == 6 {
        '6'
    } else if d == 7 {
        '7'
    } else if d == 8 {
        '8'
    } else {
        '9'
    }
}

/// The decimal digits of a number, most significant first.
pub open spec fn dec_digits_of(n: int) -> Seq<char>
    decreases n,
{
    if n < 10 {
        seq![digit_char(n)]
    } else {
        dec_digits_of(n / 10).push(digit_char(n % 10))
    }
}

/// A run of `k` zero characters.
pub open spec fn zero_run(k: int) -> Seq<char>
    decreases k,
{
    if k <= 0 {
        Seq::empty()
    } else {
        zero_run(k - 1).push('0')
    }
}

/// The digits left-padded with zeros to at least `width` characters.
pub open spec fn padded_digits_of(n: int, width: int) -> Seq<char> {
    let ds = dec_digits_of(n);
    if ds.len() >= width {
        ds
    } else {
        zero_run(width - ds.len()) + ds
    }
}

fn digit_to_char(d: u64) -> (r: char)
    requires
        d <= 9,
    ensures
        r == digit_char(d as int),
{
    if d == 0 {
        '0'
    } else if d == 1 {
        '1'
    } else if d == 2 {
        '2'
    } else if d == 3 {
        '3'
    } else if d == 4 {
        '4'
    } else if d == 5 {
        '5'
    } else if d == 6 {
        '6'
    } else if d == 7 {
        '7'
    } else if d == 8 {
        '8'
    } else {
        '9'
    }
}

/// The decimal digits of `n`, most significant first.
pub fn to_decimal(n: u64) -> (r: Vec<char>)
    ensures
        r@ == dec_digits_of(n as int),
        r@.len() >= 1,
    decreases n,
{
    if n < 10 {
        let mut r: Vec<char> = Vec::new();
        r.push(digit_to_char(n));
        proof {
            assert(r@ =~= seq![digit_char(n as int)]);
        }
        r
    } else {
        let mut r = to_decimal(n / 10);
        r.push(digit_to_char(n % 10));
        r
    }
}

/// The digits of `n` left-padded with zeros to at least `width` characters.
pub fn to_decimal_padded(n: u64, width: usize) -> (r: Vec<char>)
    ensures
        r@ == padded_digits_of(n as int, width as int),
{
    let ds = to_decimal(n);
    if ds.len() >= width {
        ds
    } else {
        let mut r: Vec<char> = Vec::new();
        let k = width - ds.len();
        for i in 0..k
            invariant
                r@ == zero_run(i as int),
        {
            r.push('0');
        }
        for i in 0..ds.len()
            invariant
                ds@ == dec_digits_of(n as int),
                r@ == zero_run(k as int) + ds@.subrange(0, i as int),
        {
            let ghost r0 = r@;
            r.push(ds[i]);
            proof {
                assert(r@ =~= zero_run(k as int) + ds@.subrange(0, i + 1));
            }
        }
        proof {
            assert(ds@.subrange(0, ds@.len() as int) =~= ds@);
        }
        r
    }
}

/// Relies on `String::push`: it appends exactly the one character.
#[verifier::external_body]
fn string_push_char(s: &mut String, c: char)
    ensures
        final(s)@ == old(s)@.push(c),
{
    s.push(c);
}

/// Collect characters into a `String`.
pub fn chars_to_string(v: &Vec<char>) -> (r: String)
    ensures
        r@ == v@,
{
    let mut r = String::new();
    for i in 0..v.len()
        invariant
            r@ == v@.subrange(0, i as int),
    {
        string_push_char(&mut r, v[i]);
        proof {
            assert(r@ =~= v@.subrange(0, i + 1));
        }
    }
    proof {
        assert(v@.subrange(0, v@.len() as int) =~= v@);
    }
    r
}

/// Append every character of `src` to `dst`.
pub fn push_chars(dst: &mut Vec<char>, src: &Vec<char>)
    ensures
        final(dst)@ == old(dst)@ + src@,
{
    let ghost base = dst@;
    for i in 0..src.len()
        invariant
            dst@ == base + src@.subrange(0, i as int),
    {
        dst.push(src[i]);
        proof {
            assert(dst@ =~= base + src@.subrange(0, i + 1));
        }
    }
    proof {
        assert(src@.subrange(0, src@.len() as int) =~= src@);
        assert(base + src@.subrange(0, src@.len() as int) =~= base + src@);
    }
}

} // verus!
