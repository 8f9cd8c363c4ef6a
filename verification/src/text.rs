//! Character-level helpers shared by the command builder and the progress
//! parser: digit predicates, the value of a digit string, decimal rendering
//! of integers, and rendering of the quarter-step CRF value.

use vstd::prelude::*;
use vstd::string::StrSliceExecFns;
use vstd::string::StringExecFns;

verus! {

/// True of the ten ASCII digits.
pub open spec fn is_digit(c: char) -> bool {
    '0' <= c && c <= '9'
}

/// Numeric value of one ASCII digit.
pub open spec fn digit_val(c: char) -> nat {
    (c as int - '0' as int) as nat
}

/// True when every character of `s` is an ASCII digit.
pub open spec fn all_digits(s: Seq<char>) -> bool {
    forall|i: int| 0 <= i < s.len() ==> is_digit(s[i])
}

/// Value of a digit string read as a base-ten numeral.
pub open spec fn digits_val(s: Seq<char>) -> nat
    decreases s.len(),
{
    if s.len() == 0 {
        0
    } else {
        digits_val(s.drop_last()) * 10 + digit_val(s.last())
    }
}

/// The ASCII digit for a value below ten.
pub open spec fn digit_char(d: nat) -> char {
    if d == 0 {
        '0'
    } else if d == 1 {
        '1'
    } else if d == 2 {
        '2'
    } else if d == 3 {
        '3'
    } else if d == 4 {
        '4'
    } else if d == 5 {
        '5'
    } else if d == 6 {
        '6'
    } else if d == 7 {
        '7'
    } else if d == 8 {
        '8'
    } else {
        '9'
    }
}

/// Shortest base-ten rendering of `n`, without sign or leading zeros.
pub open spec fn spec_dec(n: nat) -> Seq<char>
    decreases n,
{
    if n < 10 {
        seq![digit_char(n)]
    } else {
        spec_dec(n / 10).push(digit_char(n % 10))
    }
}

/// Fractional suffix of a quarter-step value, as `{}` formatting of the
/// corresponding binary fraction prints it.
pub open spec fn spec_quarter_suffix(r: nat) -> Seq<char> {
    if r == 0 {
        Seq::<char>::empty()
    } else if r == 1 {
        ".25"@
    } else if r == 2 {
        ".5"@
    } else {
        ".75"@
    }
}

/// Rendering of a CRF value held in quarter steps: whole part, then the
/// fractional suffix if the value is not whole.
pub open spec fn spec_crf_str(q: nat) -> Seq<char> {
    spec_dec(q / 4) + spec_quarter_suffix(q % 4)
}

/// The characters of `s`, in order, as a vector.
pub fn chars_of(s: &str) -> (r: Vec<char>)
    ensures
        r@ == s@,
{
    let n = s.unicode_len();
    let mut v: Vec<char> = Vec::new();
    let mut i: usize = 0;
    while i < n
        invariant
            i <= n,
            n == s@.len(),
            v@ == s@.subrange(0, i as int),
        decreases n - i,
    {
        let c = s.get_char(i);
        v.push(c);
        i = i + 1;
        proof {
            assert(v@ =~= s@.subrange(0, i as int));
        }
    }
    proof {
        assert(v@ =~= s@);
    }
    v
}

/// Relies on `String::push`: appends exactly the given character at the end
/// of the string.
#[verifier::external_body]
pub fn push_char(s: &mut String, c: char)
    ensures
        final(s)@ == old(s)@.push(c),
{
    s.push(c);
}

/// Appends the ASCII digit for `d`.
fn push_digit(s: &mut String, d: u8)
    requires
        d < 10,
    ensures
        final(s)@ == old(s)@.push(digit_char(d as nat)),
{
    let c: char = match d {
        0 => '0',
        1 => '1',
        2 => '2',
        3 => '3',
        4 => '4',
        5 => '5',
        6 => '6',
        7 => '7',
        8 => '8',
        _ => '9',
    };
    proof {
        assert(c == digit_char(d as nat));
    }
    push_char(s, c);
}

/// Appends the decimal rendering of `n`.
pub fn push_decimal(s: &mut String, n: u64)
    ensures
        final(s)@ == old(s)@ + spec_dec(n as nat),
    decreases n,
{
    if n >= 10 {
        push_decimal(s, n / 10);
        push_digit(s, (n % 10) as u8);
        proof {
            assert(s@ =~= old(s)@ + spec_dec(n as nat));
        }
    } else {
        push_digit(s, n as u8);
        proof {
            assert(s@ =~= old(s)@ + spec_dec(n as nat));
        }
    }
}

/// Appends the rendering of a quarter-step CRF value.
pub fn push_crf(s: &mut String, q: u16)
    ensures
        final(s)@ == old(s)@ + spec_crf_str(q as nat),
{
    push_decimal(s, (q / 4) as u64);
    let r = q % 4;
    if r == 1 {
        s.append(".25");
    } else if r == 2 {
        s.append(".5");
    } else if r == 3 {
        s.append(".75");
    }
    proof {
        assert(s@ =~= old(s)@ + spec_crf_str(q as nat));
    }
}

/// The decimal rendering of `n` as a fresh string.
pub fn decimal_string(n: u64) -> (r: String)
    ensures
        r@ == spec_dec(n as nat),
{
    let mut s = String::new();
    push_decimal(&mut s, n);
    proof {
        assert(s@ =~= spec_dec(n as nat));
    }
    s
}

} // verus!
