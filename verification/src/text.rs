//! Decimal rendering and character-wise string comparison.
//!
//! The notifier quotes match numbers inside its messages; these helpers
//! turn an integer into its decimal digit string and let verified code
//! compare two string slices by their characters.

use vstd::prelude::*;

verus! {

/// The decimal digit character for a value below ten.
pub open spec fn digit_char(d: int) -> char {
    if d == 0 {
        '0'
    } else if d == 1 {
        '1'
    } else if d == 2 {
        '2'
    } else if d == 3 {
        '3'
    } else if d == 4 {
        '4'
    } else if d == 5 {
        '5'
    } else if d == 6 {
        '6'
    } else if d == 7 {
        '7'
    } else if d == 8 {
        '8'
    } else {
        '9'
    }
}

/// The decimal digit string of a non-negative integer, most significant
/// digit first, with no leading zeros except for zero itself.
pub open spec fn dec_nat(n: nat) -> Seq<char>
    decreases n,
{
    if n < 10 {
        seq![digit_char(n as int)]
    } else {
        dec_nat(n / 10).push(digit_char((n % 10) as int))
    }
}

/// The decimal digit string of an integer, with a leading minus sign
/// when it is negative.
pub open spec fn dec_int(n: int) -> Seq<char> {
    if n < 0 {
        seq!['-'] + dec_nat((-n) as nat)
    } else {
        dec_nat(n as nat)
    }
}

/// The one-character string slice for a decimal digit.
fn digit_str(d: u64) -> (r: &'static str)
    requires
        d < 10,
    ensures
        r@ == seq![digit_char(d as int)],
{
    let r: &'static str = if d == 0 {
        "0"
    } else if d == 1 {
        "1"
    } else if d == 2 {
        "2"
    } else if d == 3 {
        "3"
    } else if d == 4 {
        "4"
    } else if d == 5 {
        "5"
    } else if d == 6 {
        "6"
    } else if d == 7 {
        "7"
    } else if d == 8 {
        "8"
    } else {
        "9"
    };
    proof {
        reveal_strlit("0");
        reveal_strlit("1");
        reveal_strlit("2");
        reveal_strlit("3");
        reveal_strlit("4");
        reveal_strlit("5");
        reveal_strlit("6");
        reveal_strlit("7");
        reveal_strlit("8");
        reveal_strlit("9");
        assert(r@ =~= seq![digit_char(d as int)]);
    }
    r
}

/// Renders an unsigned integer as its decimal digit string.
pub fn u64_to_string(n: u64) -> (r: String)
    ensures
        r@ == dec_nat(n as nat),
    decreases n,
{
    if n < 10 {
        String::from_str(digit_str(n))
    } else {
        let mut s = u64_to_string(n / 10);
        s.append(digit_str(n % 10));
        proof {
            assert(s@ =~= dec_nat(n as nat));
        }
        s
    }
}

/// Renders a signed integer as its decimal digit string, with a leading
/// minus sign when it is negative.
pub fn i64_to_string(n: i64) -> (r: String)
    ensures
        r@ == dec_int(n as int),
{
    if n < 0 {
        let magnitude: u64 = (-(n as i128)) as u64;
        assert(magnitude as int == -(n as int));
        let mut s = String::from_str("-");
        s.append(u64_to_string(magnitude).as_str());
        proof {
            reveal_strlit("-");
            assert(s@ =~= dec_int(n as int));
        }
        s
    } else {
        let r = u64_to_string(n as u64);
        r
    }
}

/// Compares two string slices character by character.
pub fn str_eq(a: &str, b: &str) -> (r: bool)
    ensures
        r == (a@ == b@),
{
    let a_len = a.unicode_len();
    let b_len = b.unicode_len();
    if a_len != b_len {
        assert(a@ != b@);
        return false;
    }
    let mut i: usize = 0;
    while i < a_len
        invariant
            a_len == a@.len(),
            b_len == b@.len(),
            a_len == b_len,
            i <= a_len,
            forall|j: int| 0 <= j < i ==> a@[j] == b@[j],
        decreases a_len - i,
    {
        if a.get_char(i) != b.get_char(i) {
            assert(a@ != b@);
            return false;
        }
        i = i + 1;
    }
    proof {
        assert(a@ =~= b@);
    }
    true
}

} // verus!
