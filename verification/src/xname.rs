//! The positional grammar of node identifiers.

use vstd::prelude::*;
use crate::text::chars_of;

verus! {

/// An ASCII decimal digit.
pub open spec fn is_digit(c: char) -> bool {
    '0' <= c && c <= '9'
}

/// `c` is one of the digits from `'0'` up to `hi`.
pub open spec fn is_digit_up_to(c: char, hi: char) -> bool {
    '0' <= c && c <= hi
}

/// The slot field: one digit, or a two-digit number from 10 to 64.
pub open spec fn is_slot(f: Seq<char>) -> bool {
    ||| f.len() == 1 && is_digit(f[0])
    ||| f.len() == 2 && '1' <= f[0] && f[0] <= '5' && is_digit(f[1])
    ||| f.len() == 2 && f[0] == '6' && is_digit_up_to(f[1], '4')
}

/// The grammar of a node identifier: `x`, a four-digit cabinet, `c` and a
/// chassis from 0 to 7, `s` and a slot from 0 to 64 without a leading zero,
/// `b` and a controller 0 or 1, `n` and a node from 0 to 7, and nothing else.
pub open spec fn is_xname(s: Seq<char>) -> bool {
    &&& 13 <= s.len() <= 14
    &&& s[0] == 'x'
    &&& is_digit(s[1])
    &&& is_digit(s[2])
    &&& is_digit(s[3])
    &&& is_digit(s[4])
    &&& s[5] == 'c'
    &&& is_digit_up_to(s[6], '7')
    &&& s[7] == 's'
    &&& is_slot(s.subrange(8, s.len() - 4))
    &&& s[s.len() - 4] == 'b'
    &&& is_digit_up_to(s[s.len() - 3], '1')
    &&& s[s.len() - 2] == 'n'
    &&& is_digit_up_to(s[s.len() - 1], '7')
}

fn digit_up_to(c: char, hi: char) -> (b: bool)
    ensures
        b == is_digit_up_to(c, hi),
{
    '0' <= c && c <= hi
}

/// Whether `xname` is a well-formed node identifier.
pub fn validate_xname_format(xname: &str) -> (valid: bool)
    ensures
        valid == is_xname(xname@),
{
    let s = chars_of(xname);
    let n = s.len();
    if n < 13 || n > 14 {
        return false;
    }
    let head = s[0] == 'x' && digit_up_to(s[1], '9') && digit_up_to(s[2], '9') && digit_up_to(
        s[3],
        '9',
    ) && digit_up_to(s[4], '9') && s[5] == 'c' && digit_up_to(s[6], '7') && s[7] == 's';
    let tail = s[n - 4] == 'b' && digit_up_to(s[n - 3], '1') && s[n - 2] == 'n' && digit_up_to(
        s[n - 1],
        '7',
    );
    let slot = if n == 13 {
        digit_up_to(s[8], '9')
    } else {
        ('1' <= s[8] && s[8] <= '5' && digit_up_to(s[9], '9')) || (s[8] == '6' && digit_up_to(
            s[9],
            '4',
        ))
    };
    proof {
        let f = xname@.subrange(8, n - 4);
        assert(f[0] == s@[8]);
        if n == 14 {
            assert(f[1] == s@[9]);
        }
    }
    head && tail && slot
}

} // verus!
