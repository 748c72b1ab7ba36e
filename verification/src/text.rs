//! Text helpers: optional texts as character sequences, and writing integers
//! out in decimal, the way the formatter of the standard library does.
use vstd::prelude::*;

verus! {

/// The characters of an optional text.
pub open spec fn opt_view(o: Option<String>) -> Option<Seq<char>> {
    match o {
        Some(s) => Some(s@),
        None => None,
    }
}

/// The character of a decimal digit.
pub open spec fn digit_char(d: nat) -> char {
    if d == 0 { '0' }
    else if d == 1 { '1' }
    else if d == 2 { '2' }
    else if d == 3 { '3' }
    else if d == 4 { '4' }
    else if d == 5 { '5' }
    else if d == 6 { '6' }
    else if d == 7 { '7' }
    else if d == 8 { '8' }
    else { '9' }
}

/// The decimal digits of `n`, most significant first, without leading zeros.
pub open spec fn dec_text(n: nat) -> Seq<char>
    decreases n,
{
    if n < 10 {
        seq![digit_char(n)]
    } else {
        dec_text(n / 10).push(digit_char(n % 10))
    }
}

/// An integer in decimal, with a leading `-` when it is negative.
pub open spec fn int_text(x: int) -> Seq<char> {
    if x < 0 {
        seq!['-'] + dec_text((-x) as nat)
    } else {
        dec_text(x as nat)
    }
}

/// `t` padded on the left with `0` to at least two characters.
pub open spec fn pad2(t: Seq<char>) -> Seq<char> {
    if t.len() < 2 {
        Seq::new((2 - t.len()) as nat, |i: int| '0') + t
    } else {
        t
    }
}

fn digit_str(d: u64) -> (r: &'static str)
    requires
        d < 10,
    ensures
        r@ == seq![digit_char(d as nat)],
{
    proof {
        reveal_strlit("0");
        reveal_strlit("1");
        reveal_strlit("2");
        reveal_strlit("3");
        reveal_strlit("4");
        reveal_strlit("5");
        reveal_strlit("6");
        reveal_strlit("7");
        reveal_strlit("8");
        reveal_strlit("9");
    }
    let r = if d == 0 {
        "0"
    } else if d == 1 {
        "1"
    } else if d == 2 {
        "2"
    } else if d == 3 {
        "3"
    } else if d == 4 {
        "4"
    } else if d == 5 {
        "5"
    } else if d == 6 {
        "6"
    } else if d == 7 {
        "7"
    } else if d == 8 {
        "8"
    } else {
        "9"
    };
    assert(r@ =~= seq![digit_char(d as nat)]);
    r
}

/// Appends `n` in decimal.
pub fn append_decimal(out: &mut String, n: u64)
    ensures
        final(out)@ == old(out)@ + dec_text(n as nat),
    decreases n,
{
    if n >= 10 {
        append_decimal(out, n / 10);
    }
    out.append(digit_str(n % 10));
    proof {
        if n >= 10 {
            assert(final(out)@ =~= old(out)@ + dec_text(n as nat));
        } else {
            assert(final(out)@ =~= old(out)@ + dec_text(n as nat));
        }
    }
}

/// Appends a signed number given by its sign and magnitude, padded with
/// zeros on the left to two characters.
pub fn append_padded2(out: &mut String, negative: bool, magnitude: u64)
    requires
        negative ==> magnitude > 0,
    ensures
        final(out)@ == old(out)@ + pad2(int_text(if negative { -(magnitude as int) } else { magnitude as int })),
{
    let mut t = String::new();
    if negative {
        proof {
            reveal_strlit("-");
        }
        t.append("-");
    }
    append_decimal(&mut t, magnitude);
    let ghost x: int = if negative { -(magnitude as int) } else { magnitude as int };
    proof {
        lemma_dec_text_nonempty(magnitude as nat);
        assert(t@ =~= int_text(x));
    }
    if !negative && magnitude < 10 {
        proof {
            reveal_strlit("0");
        }
        out.append("0");
        proof {
            assert(dec_text(magnitude as nat).len() == 1);
        }
    }
    out.append(t.as_str());
    proof {
        if !negative && magnitude < 10 {
            assert(pad2(t@) =~= seq!['0'] + t@);
        } else {
            if !negative {
                lemma_dec_text_len(magnitude as nat);
            }
            assert(pad2(t@) =~= t@);
        }
    }
}

pub proof fn lemma_dec_text_nonempty(n: nat)
    ensures
        dec_text(n).len() >= 1,
    decreases n,
{
    if n >= 10 {
        lemma_dec_text_nonempty(n / 10);
    }
}

/// Numbers of ten or more have at least two digits.
pub proof fn lemma_dec_text_len(n: nat)
    ensures
        n >= 10 ==> dec_text(n).len() >= 2,
        n < 10 ==> dec_text(n).len() == 1,
{
    if n >= 10 {
        lemma_dec_text_nonempty(n / 10);
    }
}

} // verus!
