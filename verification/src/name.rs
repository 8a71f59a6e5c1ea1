//! The per-user name of the shared segment: `/MumbleLink.<uid>`, with the
//! numeric user id in decimal.

use vstd::prelude::*;
use vstd::string::StringExecFns;

verus! {

/// The decimal digit character for one digit value.
pub open spec fn dec_digit(d: int) -> char
    recommends
        0 <= d < 10,
{
    ((48 + d) as u8) as char
}

/// The decimal representation of a non-negative number, most significant
/// digit first, without leading zeroes (a single zero for 0).
pub open spec fn dec_rep(n: int) -> Seq<char>
    recommends
        n >= 0,
    decreases n,
{
    if n < 10 {
        seq![dec_digit(n)]
    } else {
        dec_rep(n / 10).push(dec_digit(n % 10))
    }
}

/// The digit characters of `ds`, read back to front.
pub open spec fn rev_digit_chars(ds: Seq<u8>) -> Seq<char> {
    Seq::new(ds.len(), |i: int| dec_digit(ds[ds.len() - 1 - i] as int))
}

/// Pushing a digit prepends its character to the reversed reading.
proof fn lemma_rev_push(ds: Seq<u8>, x: u8)
    ensures
        rev_digit_chars(ds.push(x)) == seq![dec_digit(x as int)] + rev_digit_chars(ds),
{
    assert(rev_digit_chars(ds.push(x)) =~= seq![dec_digit(x as int)] + rev_digit_chars(ds));
}

/// The one-character string for a decimal digit.
fn digit_char_str(d: u8) -> (c: &'static str)
    requires
        d < 10,
    ensures
        c@ == seq![dec_digit(d as int)],
{
    proof {
        reveal_strlit("0");
        reveal_strlit("1");
        reveal_strlit("2");
        reveal_strlit("3");
        reveal_strlit("4");
        reveal_strlit("5");
        reveal_strlit("6");
        reveal_strlit("7");
        reveal_strlit("8");
        reveal_strlit("9");
    }
    let c: &'static str = match d {
        0 => "0",
        1 => "1",
        2 => "2",
        3 => "3",
        4 => "4",
        5 => "5",
        6 => "6",
        7 => "7",
        8 => "8",
        _ => "9",
    };
    proof {
        assert(c@ =~= seq![dec_digit(d as int)]);
    }
    c
}

/// The name of the shared segment for one OS user: `/MumbleLink.` followed
/// by the user id in decimal. The consumer application creates the segment
/// under this name; this system only attaches to it.
pub fn segment_name(uid: u32) -> (s: String)
    ensures
        s@ == "/MumbleLink."@ + dec_rep(uid as int),
{
    let mut digits: Vec<u8> = Vec::new();
    let mut m: u32 = uid;
    proof {
        assert(dec_rep(uid as int) =~= dec_rep(m as int) + rev_digit_chars(digits@));
    }
    while m >= 10
        invariant
            dec_rep(uid as int) == dec_rep(m as int) + rev_digit_chars(digits@),
            forall|i: int| 0 <= i < digits@.len() ==> digits@[i] < 10,
        decreases m,
    {
        let d: u8 = (m % 10) as u8;
        let ghost ds0 = digits@;
        let ghost m0 = m as int;
        digits.push(d);
        m = m / 10;
        proof {
            lemma_rev_push(ds0, d);
            assert(dec_rep(m0) == dec_rep(m0 / 10).push(dec_digit(m0 % 10)));
            assert(dec_rep(m0 / 10).push(dec_digit(m0 % 10)) + rev_digit_chars(ds0)
                =~= dec_rep(m0 / 10) + rev_digit_chars(digits@));
        }
    }
    let ghost ds1 = digits@;
    digits.push(m as u8);
    proof {
        lemma_rev_push(ds1, m as u8);
        assert(seq![dec_digit(m as int)] + rev_digit_chars(ds1) =~= dec_rep(m as int)
            + rev_digit_chars(ds1));
        assert(rev_digit_chars(digits@) == dec_rep(uid as int));
    }
    let mut s = String::from_str("/MumbleLink.");
    let mut idx: usize = 0;
    while idx < digits.len()
        invariant
            idx <= digits@.len(),
            forall|i: int| 0 <= i < digits@.len() ==> digits@[i] < 10,
            rev_digit_chars(digits@) == dec_rep(uid as int),
            s@ == "/MumbleLink."@ + rev_digit_chars(digits@).take(idx as int),
        decreases digits@.len() - idx,
    {
        let d = digits[digits.len() - 1 - idx];
        let cs = digit_char_str(d);
        s.append(cs);
        proof {
            assert(s@ =~= "/MumbleLink."@ + rev_digit_chars(digits@).take(idx as int + 1));
        }
        idx = idx + 1;
    }
    proof {
        assert(rev_digit_chars(digits@).take(digits@.len() as int) =~= rev_digit_chars(digits@));
    }
    s
}

} // verus!
