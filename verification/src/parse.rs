//! Reading an unsigned integer out of a line of input: trim surrounding
//! whitespace, then accept an optional plus sign followed by decimal digits.

use vstd::prelude::*;

verus! {

/// Whitespace that trimming removes from either end of a line.
pub open spec fn is_ws(c: char) -> bool {
    c == ' ' || c == '\t' || c == '\n' || c == '\r'
}

/// A line with its leading whitespace removed.
pub open spec fn drop_leading_ws(s: Seq<char>) -> Seq<char>
    decreases s.len(),
{
    if s.len() > 0 && is_ws(s[0]) {
        drop_leading_ws(s.subrange(1, s.len() as int))
    } else {
        s
    }
}

/// A line with its trailing whitespace removed.
pub open spec fn drop_trailing_ws(s: Seq<char>) -> Seq<char>
    decreases s.len(),
{
    if s.len() > 0 && is_ws(s[s.len() - 1]) {
        drop_trailing_ws(s.subrange(0, s.len() - 1))
    } else {
        s
    }
}

/// A line with whitespace removed from both ends.
pub open spec fn trimmed(s: Seq<char>) -> Seq<char> {
    drop_trailing_ws(drop_leading_ws(s))
}

/// Trims whitespace from both ends of a line.
pub fn trim_line(s: &str) -> (r: &str)
    ensures
        r@ == trimmed(s@),
{
    let len: usize = s.unicode_len();
    proof {
        assert(s@.subrange(0, len as int) =~= s@);
    }
    let mut lo: usize = 0;
    while lo < len && is_ws_char(s.get_char(lo))
        invariant
            lo <= len,
            len == s@.len(),
            drop_leading_ws(s@) == drop_leading_ws(s@.subrange(lo as int, len as int)),
        decreases len - lo,
    {
        proof {
            let cur = s@.subrange(lo as int, len as int);
            assert(cur.subrange(1, cur.len() as int) =~= s@.subrange(lo + 1, len as int));
        }
        lo = lo + 1;
    }
    proof {
        assert(drop_leading_ws(s@.subrange(lo as int, len as int)) == s@.subrange(
            lo as int,
            len as int,
        ));
    }
    let mut hi: usize = len;
    while hi > lo && is_ws_char(s.get_char(hi - 1))
        invariant
            lo <= hi <= len,
            len == s@.len(),
            drop_leading_ws(s@) == s@.subrange(lo as int, len as int),
            drop_trailing_ws(drop_leading_ws(s@)) == drop_trailing_ws(
                s@.subrange(lo as int, hi as int),
            ),
        decreases hi,
    {
        proof {
            let cur = s@.subrange(lo as int, hi as int);
            assert(cur.subrange(0, cur.len() - 1) =~= s@.subrange(lo as int, hi - 1));
        }
        hi = hi - 1;
    }
    proof {
        assert(drop_trailing_ws(s@.subrange(lo as int, hi as int)) == s@.subrange(
            lo as int,
            hi as int,
        ));
    }
    s.substring_char(lo, hi)
}

/// Tests a character for the whitespace that trimming removes.
fn is_ws_char(c: char) -> (r: bool)
    ensures
        r == is_ws(c),
{
    c == ' ' || c == '\t' || c == '\n' || c == '\r'
}

/// A decimal digit character.
pub open spec fn is_digit(c: char) -> bool {
    '0' <= c && c <= '9'
}

/// The numeric value of a decimal digit character.
pub open spec fn digit_val(c: char) -> int {
    c as int - '0' as int
}

/// Every character of the sequence is a decimal digit.
pub open spec fn all_digits(s: Seq<char>) -> bool {
    forall|i: int| 0 <= i < s.len() ==> is_digit(#[trigger] s[i])
}

/// The value of a sequence of decimal digit characters, most significant
/// digit first.
pub open spec fn digits_value(s: Seq<char>) -> nat
    decreases s.len(),
{
    if s.len() == 0 {
        0
    } else {
        digits_value(s.drop_last()) * 10 + (if digit_val(s.last()) >= 0 {
            digit_val(s.last()) as nat
        } else {
            0
        })
    }
}

/// The digits of a number: an optional leading plus sign stripped off.
pub open spec fn number_body(s: Seq<char>) -> Seq<char> {
    if s.len() > 0 && s[0] == '+' {
        s.subrange(1, s.len() as int)
    } else {
        s
    }
}

/// What parsing a trimmed piece of text as an unsigned integer yields:
/// the digits' value when the text is an optional plus sign followed by
/// one or more decimal digits and the value fits in 64 bits, and nothing
/// otherwise.
pub open spec fn spec_parse_u64(s: Seq<char>) -> Option<u64> {
    let body = number_body(s);
    if body.len() > 0 && all_digits(body) && digits_value(body) <= u64::MAX {
        Some(digits_value(body) as u64)
    } else {
        None
    }
}

/// What parsing a whole input line yields: the line is trimmed first.
pub open spec fn spec_parse_line(s: Seq<char>) -> Option<u64> {
    spec_parse_u64(trimmed(s))
}

/// Parses a trimmed piece of text as an unsigned 64-bit integer.
fn parse_u64(s: &str) -> (r: Option<u64>)
    ensures
        r == spec_parse_u64(s@),
{
    let len: usize = s.unicode_len();
    let start: usize = if len > 0 && s.get_char(0) == '+' {
        1
    } else {
        0
    };
    let ghost body = number_body(s@);
    proof {
        assert(body =~= s@.subrange(start as int, len as int));
    }
    if start == len {
        return None;
    }
    let mut val: u64 = 0;
    let mut overflow: bool = false;
    let mut i: usize = start;
    while i < len
        invariant
            start <= i <= len,
            len == s@.len(),
            body == number_body(s@),
            body == s@.subrange(start as int, len as int),
            all_digits(body.subrange(0, i - start)),
            !overflow ==> val == digits_value(body.subrange(0, i - start)),
            overflow ==> digits_value(body.subrange(0, i - start)) > u64::MAX,
        decreases len - i,
    {
        let c = s.get_char(i);
        if c < '0' || c > '9' {
            proof {
                assert(body[i - start] == s@[i as int]);
                assert(!is_digit(body[i - start]));
            }
            return None;
        }
        let d: u64 = (c as u32 as u64) - ('0' as u32 as u64);
        proof {
            let pre = body.subrange(0, i - start);
            let cur = body.subrange(0, i + 1 - start);
            assert(cur.drop_last() =~= pre);
            assert(cur.last() == s@[i as int]);
        }
        if !overflow {
            if val > (u64::MAX - d) / 10 {
                overflow = true;
            } else {
                val = val * 10 + d;
            }
        }
        i = i + 1;
    }
    proof {
        assert(body.subrange(0, len - start) =~= body);
    }
    if overflow {
        proof {
            assert(!(digits_value(body) <= u64::MAX));
        }
        None
    } else {
        Some(val)
    }
}

/// Parses a line of input as an unsigned integer: trims whitespace from
/// both ends, then accepts an optional plus sign followed by decimal
/// digits whose value fits in 64 bits.
pub fn parse_line(s: &str) -> (r: Option<u64>)
    ensures
        r == spec_parse_line(s@),
{
    parse_u64(trim_line(s))
}

} // verus!
