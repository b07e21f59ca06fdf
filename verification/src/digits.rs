//! Fixed-width decimal rendering of code values.

use vstd::prelude::*;

verus! {

/// The decimal digit character for `d` in `0..10`.
pub open spec fn digit_char(d: int) -> char {
    if d == 0 {
        '0'
    } else if d == 1 {
        '1'
    } else if d == 2 {
        '2'
    } else if d == 3 {
        '3'
    } else if d == 4 {
        '4'
    } else if d == 5 {
        '5'
    } else if d == 6 {
        '6'
    } else if d == 7 {
        '7'
    } else if d == 8 {
        '8'
    } else {
        '9'
    }
}

/// The decimal rendering of `v` in exactly `width` characters, zero-padded
/// on the left; digits of `v` beyond `width` are dropped.
pub open spec fn dec_seq(v: int, width: nat) -> Seq<char>
    decreases width,
{
    if width == 0 {
        Seq::empty()
    } else {
        dec_seq(v / 10, (width - 1) as nat) + seq![digit_char(v % 10)]
    }
}

/// A width-`width` decimal rendering has exactly `width` characters.
pub proof fn lemma_dec_seq_len(v: int, width: nat)
    ensures
        dec_seq(v, width).len() == width,
    decreases width,
{
    if width > 0 {
        lemma_dec_seq_len(v / 10, (width - 1) as nat);
    }
}

/// 10 to the power `d`.
pub open spec fn pow10(d: nat) -> nat
    decreases d,
{
    if d == 0 {
        1
    } else {
        10 * pow10((d - 1) as nat)
    }
}

/// The one-character string for digit `d`.
fn digit_str(d: u32) -> (r: &'static str)
    requires
        d < 10,
    ensures
        r@ =~= seq![digit_char(d as int)],
{
    proof {
        reveal_strlit("0");
        reveal_strlit("1");
        reveal_strlit("2");
        reveal_strlit("3");
        reveal_strlit("4");
        reveal_strlit("5");
        reveal_strlit("6");
        reveal_strlit("7");
        reveal_strlit("8");
        reveal_strlit("9");
    }
    if d == 0 {
        "0"
    } else if d == 1 {
        "1"
    } else if d == 2 {
        "2"
    } else if d == 3 {
        "3"
    } else if d == 4 {
        "4"
    } else if d == 5 {
        "5"
    } else if d == 6 {
        "6"
    } else if d == 7 {
        "7"
    } else if d == 8 {
        "8"
    } else {
        "9"
    }
}

/// Render `v` in decimal, zero-padded on the left to exactly `width`
/// characters.
pub fn dec_render(v: u32, width: usize) -> (r: String)
    ensures
        r@ == dec_seq(v as int, width as nat),
        r@.len() == width,
    decreases width,
{
    proof {
        lemma_dec_seq_len(v as int, width as nat);
    }
    if width == 0 {
        String::new()
    } else {
        let mut r = dec_render(v / 10, width - 1);
        r.append(digit_str(v % 10));
        proof {
            assert(r@ =~= dec_seq(v as int, width as nat));
        }
        r
    }
}

} // verus!
