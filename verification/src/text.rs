//! Decimal rendering of integers and booleans as text, proved exact against
//! recursive specifications over character sequences.

use vstd::prelude::*;

verus! {

/// The character for a single decimal digit value.
pub open spec fn digit_char(d: int) -> char {
    if d == 0 {
        '0'
    } else if d == 1 {
        '1'
    } else if d == 2 {
        '2'
    } else if d == 3 {
        '3'
    } else if d == 4 {
        '4'
    } else if d == 5 {
        '5'
    } else if d == 6 {
        '6'
    } else if d == 7 {
        '7'
    } else if d == 8 {
        '8'
    } else {
        '9'
    }
}

/// The decimal rendering of a natural number, most significant digit first,
/// with no leading zeros (except for the single digit of zero itself).
pub open spec fn dec_str(n: nat) -> Seq<char>
    decreases n,
{
    if n < 10 {
        seq![digit_char(n as int)]
    } else {
        dec_str(n / 10) + seq![digit_char((n % 10) as int)]
    }
}

/// The decimal rendering of an integer: a minus sign before the magnitude
/// when negative.
pub open spec fn dec_str_int(n: int) -> Seq<char> {
    if n < 0 {
        seq!['-'] + dec_str((-n) as nat)
    } else {
        dec_str(n as nat)
    }
}

/// A one-character string for a single decimal digit.
fn digit_str(d: u64) -> (r: &'static str)
    requires
        d < 10,
    ensures
        r@ =~= seq![digit_char(d as int)],
{
    proof {
        reveal_strlit("0");
        reveal_strlit("1");
        reveal_strlit("2");
        reveal_strlit("3");
        reveal_strlit("4");
        reveal_strlit("5");
        reveal_strlit("6");
        reveal_strlit("7");
        reveal_strlit("8");
        reveal_strlit("9");
    }
    match d {
        0 => "0",
        1 => "1",
        2 => "2",
        3 => "3",
        4 => "4",
        5 => "5",
        6 => "6",
        7 => "7",
        8 => "8",
        _ => "9",
    }
}

/// Renders an unsigned integer in decimal.
pub fn fmt_u64(n: u64) -> (r: String)
    ensures
        r@ == dec_str(n as nat),
    decreases n,
{
    if n < 10 {
        String::from_str(digit_str(n))
    } else {
        let mut s = fmt_u64(n / 10);
        s.append(digit_str(n % 10));
        s
    }
}

/// Renders a signed 32-bit integer in decimal.
pub fn fmt_i32(n: i32) -> (r: String)
    ensures
        r@ == dec_str_int(n as int),
{
    if n >= 0 {
        fmt_u64(n as u64)
    } else {
        // -(n + 1) stays in range even for the smallest value.
        let mag: u64 = ((-(n + 1)) as u64) + 1;
        assert(mag == -(n as int));
        proof {
            reveal_strlit("-");
        }
        let mut s = String::from_str("-");
        let digits = fmt_u64(mag);
        s.append(digits.as_str());
        s
    }
}

/// The text of a boolean value.
pub open spec fn bool_text(b: bool) -> Seq<char> {
    if b {
        "true"@
    } else {
        "false"@
    }
}

/// Renders a boolean value as text.
pub fn fmt_bool(b: bool) -> (r: &'static str)
    ensures
        r@ == bool_text(b),
{
    if b {
        "true"
    } else {
        "false"
    }
}

/// Pushing a line onto a vector of lines pushes its view onto the view of
/// the whole, line by line.
pub proof fn lemma_deep_view_push(pre: Vec<String>, post: Vec<String>, s: String)
    requires
        post@ == pre@.push(s),
    ensures
        post.deep_view() == pre.deep_view().push(s@),
{
    assert forall|j: int| 0 <= j < post@.len() implies post.deep_view()[j]
        == pre.deep_view().push(s@)[j] by {
        if j < pre@.len() {
            assert(post@[j] == pre@[j]);
            assert(pre.deep_view()[j] == pre@[j]@);
        } else {
            assert(post@[j] == s);
        }
    }
    assert(post.deep_view() =~= pre.deep_view().push(s@));
}

/// Appending lines onto a vector of lines concatenates their views.
pub proof fn lemma_deep_view_append(pre: Vec<String>, mid: Vec<String>, post: Vec<String>)
    requires
        post@ == pre@ + mid@,
    ensures
        post.deep_view() == pre.deep_view() + mid.deep_view(),
{
    assert forall|j: int| 0 <= j < post@.len() implies post.deep_view()[j] == (pre.deep_view()
        + mid.deep_view())[j] by {
        if j < pre@.len() {
            assert(post@[j] == pre@[j]);
            assert(pre.deep_view()[j] == pre@[j]@);
        } else {
            assert(post@[j] == mid@[j - pre@.len()]);
            assert(mid.deep_view()[j - pre@.len()] == mid@[j - pre@.len()]@);
        }
    }
    assert(post.deep_view() =~= pre.deep_view() + mid.deep_view());
}

} // verus!
