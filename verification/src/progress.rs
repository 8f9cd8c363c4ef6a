//! The progress parser: recognises the two line shapes the orchestrator
//! prints — a bare pair of frame counters, and a rich progress line with a
//! bar, a percentage, a rate and an eta — and turns a recognised line into a
//! structured snapshot. A line matching neither shape, or holding a numeric
//! field too large for its type, carries no progress information.

use vstd::prelude::*;
use crate::text::all_digits;
use crate::text::chars_of;
use crate::text::digit_val;
use crate::text::digits_val;
use crate::text::is_digit;
use crate::text::push_char;

verus! {

/// One structured progress update, produced per recognised line. Fractional
/// quantities are held in thousandths: a `percent_milli` of `45000` is
/// 45 %, an `fps_milli` of `2500` is 2.5 frames per second.
#[derive(Debug, Clone, PartialEq, Eq)]
pub struct ProgressSnapshot {
    pub current: u32,
    pub total: u32,
    /// Percentage of the job done, in thousandths of a percent.
    pub percent_milli: u64,
    /// Frame rate in thousandths of a frame per second.
    pub fps_milli: u64,
    /// The eta text, verbatim; empty when the line carries none.
    pub eta: String,
}

/// The mathematical reading of a recognised line, before any size check.
pub ghost struct SnapshotModel {
    pub current: nat,
    pub total: nat,
    pub percent_milli: nat,
    /// The rate as printed, in thousandths.
    pub rate_milli: nat,
    /// Whether the printed rate is seconds per frame rather than frames per
    /// second.
    pub rate_is_spf: bool,
    pub eta: Seq<char>,
}

/// Whitespace that separates the fields of a progress line.
pub open spec fn is_space(c: char) -> bool {
    c == ' ' || c == '\t'
}

/// First index at or after `i` that does not hold an ASCII digit.
pub open spec fn skip_digits(s: Seq<char>, i: int) -> int
    decreases s.len() - i,
{
    if i < 0 || i >= s.len() || !is_digit(s[i]) {
        i
    } else {
        skip_digits(s, i + 1)
    }
}

/// First index at or after `i` that does not hold whitespace.
pub open spec fn skip_spaces(s: Seq<char>, i: int) -> int
    decreases s.len() - i,
{
    if i < 0 || i >= s.len() || !is_space(s[i]) {
        i
    } else {
        skip_spaces(s, i + 1)
    }
}

/// First index at or after `i` that holds whitespace, or the length.
pub open spec fn skip_to_space(s: Seq<char>, i: int) -> int
    decreases s.len() - i,
{
    if i < 0 || i >= s.len() || is_space(s[i]) {
        i
    } else {
        skip_to_space(s, i + 1)
    }
}

/// Exec mirror of `is_digit`.
fn is_digit_exec(c: char) -> (b: bool)
    ensures
        b == is_digit(c),
{
    '0' <= c && c <= '9'
}

/// Exec mirror of `is_space`.
fn is_space_exec(c: char) -> (b: bool)
    ensures
        b == is_space(c),
{
    c == ' ' || c == '\t'
}

/// Numeric value of one ASCII digit.
fn digit_value(c: char) -> (d: u64)
    requires
        is_digit(c),
    ensures
        d as nat == digit_val(c),
        d < 10,
{
    ((c as u32) - ('0' as u32)) as u64
}

/// Scans a digit run: returns `skip_digits` of `from`.
fn scan_digits(v: &Vec<char>, from: usize) -> (r: usize)
    requires
        from <= v.len(),
    ensures
        from <= r <= v.len(),
        r == skip_digits(v@, from as int),
        all_digits(v@.subrange(from as int, r as int)),
        r < v.len() ==> !is_digit(v@[r as int]),
{
    let mut i: usize = from;
    while i < v.len() && is_digit_exec(v[i])
        invariant
            from <= i <= v.len(),
            skip_digits(v@, from as int) == skip_digits(v@, i as int),
            forall|k: int| from <= k < i ==> is_digit(#[trigger] v@[k]),
        decreases v.len() - i,
    {
        i = i + 1;
    }
    proof {
        assert(skip_digits(v@, i as int) == i);
        assert(all_digits(v@.subrange(from as int, i as int)));
    }
    i
}

/// Scans whitespace: returns `skip_spaces` of `from`.
fn scan_spaces(v: &Vec<char>, from: usize) -> (r: usize)
    requires
        from <= v.len(),
    ensures
        from <= r <= v.len(),
        r == skip_spaces(v@, from as int),
{
    let mut i: usize = from;
    while i < v.len() && is_space_exec(v[i])
        invariant
            from <= i <= v.len(),
            skip_spaces(v@, from as int) == skip_spaces(v@, i as int),
        decreases v.len() - i,
    {
        i = i + 1;
    }
    proof {
        assert(skip_spaces(v@, i as int) == i);
    }
    i
}

/// Scans to the next whitespace: returns `skip_to_space` of `from`.
fn scan_to_space(v: &Vec<char>, from: usize) -> (r: usize)
    requires
        from <= v.len(),
    ensures
        from <= r <= v.len(),
        r == skip_to_space(v@, from as int),
{
    let mut i: usize = from;
    while i < v.len() && !is_space_exec(v[i])
        invariant
            from <= i <= v.len(),
            skip_to_space(v@, from as int) == skip_to_space(v@, i as int),
        decreases v.len() - i,
    {
        i = i + 1;
    }
    proof {
        assert(skip_to_space(v@, i as int) == i);
    }
    i
}

/// A longer digit string never reads as a smaller value.
proof fn lemma_digits_val_append(s: Seq<char>, t: Seq<char>)
    ensures
        digits_val(s + t) >= digits_val(s),
    decreases t.len(),
{
    if t.len() == 0 {
        assert(s + t =~= s);
    } else {
        assert((s + t).drop_last() =~= s + t.drop_last());
        lemma_digits_val_append(s, t.drop_last());
    }
}

/// Reads the value of the digit run `from .. to`; `None` when it does not
/// fit in the type.
fn parse_digits_val(v: &Vec<char>, from: usize, to: usize) -> (r: Option<u64>)
    requires
        from <= to <= v.len(),
        all_digits(v@.subrange(from as int, to as int)),
    ensures
        match r {
            Some(x) => x as nat == digits_val(v@.subrange(from as int, to as int)),
            None => digits_val(v@.subrange(from as int, to as int)) > u64::MAX,
        },
{
    let mut acc: u64 = 0;
    let mut i: usize = from;
    while i < to
        invariant
            from <= i <= to <= v.len(),
            all_digits(v@.subrange(from as int, to as int)),
            acc as nat == digits_val(v@.subrange(from as int, i as int)),
        decreases to - i,
    {
        proof {
            assert(is_digit(v@[i as int])) by {
                assert(v@.subrange(from as int, to as int)[i - from] == v@[i as int]);
            }
        }
        let d = digit_value(v[i]);
        let ghost pre = v@.subrange(from as int, i as int);
        let ghost ext = v@.subrange(from as int, (i + 1) as int);
        proof {
            assert(ext.drop_last() =~= pre);
            assert(ext.last() == v@[i as int]);
        }
        let m = match acc.checked_mul(10) {
            Some(m10) => m10.checked_add(d),
            None => None,
        };
        match m {
            Some(x) => {
                acc = x;
            },
            None => {
                proof {
                    assert(digits_val(ext) == digits_val(pre) * 10 + digit_val(v@[i as int]));
                    assert(digits_val(ext) > u64::MAX);
                    assert(v@.subrange(from as int, to as int) =~= ext + v@.subrange(
                        (i + 1) as int,
                        to as int,
                    ));
                    lemma_digits_val_append(ext, v@.subrange((i + 1) as int, to as int));
                }
                return None;
            },
        }
        i = i + 1;
    }
    Some(acc)
}

/// End of the decimal number starting at `i`: a digit run, then optionally a
/// dot and a second digit run. Equal to `i` when no number starts there.
pub open spec fn dec_end(s: Seq<char>, i: int) -> int {
    let j = skip_digits(s, i);
    if j == i {
        i
    } else if j < s.len() && s[j] == '.' && skip_digits(s, j + 1) > j + 1 {
        skip_digits(s, j + 1)
    } else {
        j
    }
}

/// Thousandths carried by the fractional digits: the first three of them,
/// padded with zeros; further digits are truncated.
pub open spec fn frac_milli(fp: Seq<char>) -> nat {
    if fp.len() == 0 {
        0
    } else if fp.len() == 1 {
        digit_val(fp[0]) * 100
    } else if fp.len() == 2 {
        digit_val(fp[0]) * 100 + digit_val(fp[1]) * 10
    } else {
        digit_val(fp[0]) * 100 + digit_val(fp[1]) * 10 + digit_val(fp[2])
    }
}

/// Value in thousandths of the decimal number starting at `i`: meaningful
/// only when one starts there.
pub open spec fn dec_val_milli(s: Seq<char>, i: int) -> nat {
    let j = skip_digits(s, i);
    if j < s.len() && s[j] == '.' && skip_digits(s, j + 1) > j + 1 {
        digits_val(s.subrange(i, j)) * 1000 + frac_milli(s.subrange(j + 1, skip_digits(s, j + 1)))
    } else {
        digits_val(s.subrange(i, j)) * 1000
    }
}

/// Result of scanning a decimal number: where it ended, and its value in
/// thousandths when that value fits the type.
struct DecScan {
    end: usize,
    val: Option<u64>,
}

/// Scans the decimal number starting at `from`.
fn parse_decimal(v: &Vec<char>, from: usize) -> (r: DecScan)
    requires
        from <= v.len(),
    ensures
        from <= r.end <= v.len(),
        r.end as int == dec_end(v@, from as int),
        r.end != from ==> match r.val {
            Some(x) => x as nat == dec_val_milli(v@, from as int),
            None => dec_val_milli(v@, from as int) > u64::MAX,
        },
        r.end == from ==> r.val is None,
{
    let j = scan_digits(v, from);
    if j == from {
        return DecScan { end: from, val: None };
    }
    let mut end = j;
    let mut fm: u64 = 0;
    if j < v.len() && v[j] == '.' {
        let k = scan_digits(v, j + 1);
        if k > j + 1 {
            end = k;
            proof {
                assert(is_digit(v@[(j + 1) as int])) by {
                    assert(v@.subrange((j + 1) as int, k as int)[0] == v@[(j + 1) as int]);
                }
            }
            fm = digit_value(v[j + 1]) * 100;
            if k - j > 2 {
                proof {
                    assert(is_digit(v@[(j + 2) as int])) by {
                        assert(v@.subrange((j + 1) as int, k as int)[1] == v@[(j + 2) as int]);
                    }
                }
                fm = fm + digit_value(v[j + 2]) * 10;
            }
            if k - j > 3 {
                proof {
                    assert(is_digit(v@[(j + 3) as int])) by {
                        assert(v@.subrange((j + 1) as int, k as int)[2] == v@[(j + 3) as int]);
                    }
                }
                fm = fm + digit_value(v[j + 3]);
            }
            proof {
                assert(fm as nat == frac_milli(v@.subrange((j + 1) as int, k as int))) by {
                    assert(v@.subrange((j + 1) as int, k as int).len() == k - j - 1);
                }
            }
        }
    }
    let val: Option<u64> = match parse_digits_val(v, from, j) {
        Some(ip) => match ip.checked_mul(1000) {
            Some(m) => m.checked_add(fm),
            None => None,
        },
        None => None,
    };
    DecScan { end, val }
}

/// A bare frame-count line: a digit run, whitespace, a second digit run, and
/// nothing else. The values are the two counters.
pub open spec fn spec_parse_bare(s: Seq<char>) -> Option<(nat, nat)> {
    let i = skip_digits(s, 0);
    if i == 0 {
        None
    } else {
        let j = skip_spaces(s, i);
        if j == i {
            None
        } else {
            let k = skip_digits(s, j);
            if k == j || k != s.len() {
                None
            } else {
                Some((digits_val(s.subrange(0, i)), digits_val(s.subrange(j, k))))
            }
        }
    }
}

/// Percentage in thousandths of a percent: `cur` out of `tot`, scaled by one
/// hundred; zero when the total is zero, so the division never faults.
pub open spec fn spec_pct_milli(cur: nat, tot: nat) -> nat {
    if tot == 0 {
        0
    } else {
        cur * 100000 / tot
    }
}

/// A zero total never divides: the computed percentage is zero, whatever the
/// counter says.
pub proof fn lemma_zero_total_percent(cur: nat)
    ensures
        spec_pct_milli(cur, 0) == 0,
{
}

/// A time-of-day-like elapsed marker fills `from .. to`: non-empty, digits
/// and colons only, with at least one colon.
pub open spec fn elapsed_token_at(s: Seq<char>, from: int, to: int) -> bool {
    &&& from < to <= s.len()
    &&& forall|k: int| from <= k < to ==> is_digit(#[trigger] s[k]) || s[k] == ':'
    &&& exists|k: int| from <= k < to && #[trigger] s[k] == ':'
}

/// A block-element glyph, as progress bars are drawn with.
pub open spec fn is_bar_char(c: char) -> bool {
    '\u{2580}' <= c && c <= '\u{259F}'
}

/// A bar token fills `from .. to`: non-empty and made of bar glyphs.
pub open spec fn bar_token_at(s: Seq<char>, from: int, to: int) -> bool {
    &&& from < to <= s.len()
    &&& forall|k: int| from <= k < to ==> is_bar_char(#[trigger] s[k])
}

/// The frames-per-second unit and the eta introducer sit at `i`.
pub open spec fn fps_tag_at(s: Seq<char>, i: int) -> bool {
    &&& 0 <= i
    &&& i + 9 <= s.len()
    &&& s[i] == 'f'
    &&& s[i + 1] == 'p'
    &&& s[i + 2] == 's'
    &&& s[i + 3] == ','
    &&& s[i + 4] == ' '
    &&& s[i + 5] == 'e'
    &&& s[i + 6] == 't'
    &&& s[i + 7] == 'a'
    &&& s[i + 8] == ' '
}

/// The seconds-per-frame unit and the eta introducer sit at `i`.
pub open spec fn spf_tag_at(s: Seq<char>, i: int) -> bool {
    &&& 0 <= i
    &&& i + 10 <= s.len()
    &&& s[i] == 's'
    &&& s[i + 1] == '/'
    &&& s[i + 2] == 'f'
    &&& s[i + 3] == 'r'
    &&& s[i + 4] == ','
    &&& s[i + 5] == ' '
    &&& s[i + 6] == 'e'
    &&& s[i + 7] == 't'
    &&& s[i + 8] == 'a'
    &&& s[i + 9] == ' '
}

/// Reading of a rich line once its field positions are fixed: the counters
/// span `e .. f` and `f + 1 .. g`, the percentage starts at `d`, the rate at
/// `h + 1`, and the eta text runs from `eta_start` to a closing parenthesis
/// that ends the line.
pub open spec fn spec_rich_result(
    s: Seq<char>,
    d: int,
    e: int,
    f: int,
    g: int,
    h: int,
    spf: bool,
    eta_start: int,
) -> Option<SnapshotModel> {
    if eta_start <= s.len() - 1 && s[s.len() - 1] == ')' {
        Some(
            SnapshotModel {
                current: digits_val(s.subrange(e, f)),
                total: digits_val(s.subrange(f + 1, g)),
                percent_milli: dec_val_milli(s, d),
                rate_milli: dec_val_milli(s, h + 1),
                rate_is_spf: spf,
                eta: s.subrange(eta_start, s.len() - 1),
            },
        )
    } else {
        None
    }
}

/// A rich progress line: an elapsed marker, a bar, a percentage, a
/// `current/total` pair, and a parenthesised rate with an eta suffix. The
/// rate unit is either frames per second or seconds per frame.
pub open spec fn spec_parse_rich(s: Seq<char>) -> Option<SnapshotModel> {
    let a = skip_to_space(s, 0);
    if !elapsed_token_at(s, 0, a) {
        None
    } else {
        let b = skip_spaces(s, a);
        if b == a {
            None
        } else {
            let c = skip_to_space(s, b);
            if !bar_token_at(s, b, c) {
                None
            } else {
                let d = skip_spaces(s, c);
                if d == c {
                    None
                } else {
                    let pe = dec_end(s, d);
                    if pe == d || pe >= s.len() || s[pe] != '%' {
                        None
                    } else {
                        spec_parse_rich_counters(s, d, pe)
                    }
                }
            }
        }
    }
}

/// Continuation of `spec_parse_rich` after the percentage: the counter pair,
/// then the parenthesised rate.
pub open spec fn spec_parse_rich_counters(s: Seq<char>, d: int, pe: int) -> Option<SnapshotModel> {
    let e = skip_spaces(s, pe + 1);
    if e == pe + 1 {
        None
    } else {
        let f = skip_digits(s, e);
        if f == e || f >= s.len() || s[f] != '/' {
            None
        } else {
            let g = skip_digits(s, f + 1);
            if g == f + 1 {
                None
            } else {
                let h = skip_spaces(s, g);
                if h == g || h >= s.len() || s[h] != '(' {
                    None
                } else {
                    let re = dec_end(s, h + 1);
                    if re == h + 1 || re >= s.len() || s[re] != ' ' {
                        None
                    } else {
                        if fps_tag_at(s, re + 1) {
                            spec_rich_result(s, d, e, f, g, h, false, re + 10)
                        } else if spf_tag_at(s, re + 1) {
                            spec_rich_result(s, d, e, f, g, h, true, re + 11)
                        } else {
                            None
                        }
                    }
                }
            }
        }
    }
}

/// Checks for an elapsed marker filling `from .. to`.
fn check_elapsed(v: &Vec<char>, from: usize, to: usize) -> (b: bool)
    requires
        from <= to <= v.len(),
    ensures
        b == elapsed_token_at(v@, from as int, to as int),
{
    if from == to {
        return false;
    }
    let mut saw_colon = false;
    let mut i: usize = from;
    while i < to
        invariant
            from <= i <= to <= v.len(),
            forall|k: int| from <= k < i ==> is_digit(#[trigger] v@[k]) || v@[k] == ':',
            saw_colon == exists|k: int| from <= k < i && #[trigger] v@[k] == ':',
        decreases to - i,
    {
        let c = v[i];
        if c == ':' {
            saw_colon = true;
            proof {
                assert(v@[i as int] == ':');
            }
        } else if !is_digit_exec(c) {
            proof {
                assert(!(is_digit(v@[i as int]) || v@[i as int] == ':'));
            }
            return false;
        }
        i = i + 1;
    }
    saw_colon
}

/// Exec mirror of `is_bar_char`.
fn is_bar_char_exec(c: char) -> (b: bool)
    ensures
        b == is_bar_char(c),
{
    '\u{2580}' <= c && c <= '\u{259F}'
}

/// Checks for a bar token filling `from .. to`.
fn check_bar(v: &Vec<char>, from: usize, to: usize) -> (b: bool)
    requires
        from <= to <= v.len(),
    ensures
        b == bar_token_at(v@, from as int, to as int),
{
    if from == to {
        return false;
    }
    let mut i: usize = from;
    while i < to
        invariant
            from <= i <= to <= v.len(),
            forall|k: int| from <= k < i ==> is_bar_char(#[trigger] v@[k]),
        decreases to - i,
    {
        if !is_bar_char_exec(v[i]) {
            return false;
        }
        i = i + 1;
    }
    true
}

/// Checks for the frames-per-second tag at `i`.
fn check_fps_tag(v: &Vec<char>, i: usize) -> (b: bool)
    requires
        i <= v.len(),
    ensures
        b == fps_tag_at(v@, i as int),
{
    if v.len() - i < 9 {
        return false;
    }
    v[i] == 'f' && v[i + 1] == 'p' && v[i + 2] == 's' && v[i + 3] == ',' && v[i + 4] == ' '
        && v[i + 5] == 'e' && v[i + 6] == 't' && v[i + 7] == 'a' && v[i + 8] == ' '
}

/// Checks for the seconds-per-frame tag at `i`.
fn check_spf_tag(v: &Vec<char>, i: usize) -> (b: bool)
    requires
        i <= v.len(),
    ensures
        b == spf_tag_at(v@, i as int),
{
    if v.len() - i < 10 {
        return false;
    }
    v[i] == 's' && v[i + 1] == '/' && v[i + 2] == 'f' && v[i + 3] == 'r' && v[i + 4] == ','
        && v[i + 5] == ' ' && v[i + 6] == 'e' && v[i + 7] == 't' && v[i + 8] == 'a'
        && v[i + 9] == ' '
}

/// Recognises a rich progress line; `None` also when a numeric field does
/// not fit its type.
#[verifier::rlimit(60)]
fn parse_rich(v: &Vec<char>) -> (r: Option<ProgressSnapshot>)
    ensures
        match spec_parse_rich(v@) {
            Some(m) => {
                if model_fits(m) {
                    r matches Some(snap) && snap.current == m.current && snap.total == m.total
                        && snap.percent_milli == m.percent_milli && snap.fps_milli
                        == model_fps_milli(m) && snap.eta@ == m.eta
                } else {
                    r is None
                }
            },
            None => r is None,
        },
{
    let n = v.len();
    let a = scan_to_space(v, 0);
    if !check_elapsed(v, 0, a) {
        return None;
    }
    let b = scan_spaces(v, a);
    if b == a {
        return None;
    }
    let c = scan_to_space(v, b);
    if !check_bar(v, b, c) {
        return None;
    }
    let d = scan_spaces(v, c);
    if d == c {
        return None;
    }
    let ps = parse_decimal(v, d);
    let pe = ps.end;
    if pe == d || pe >= n {
        return None;
    }
    if v[pe] != '%' {
        return None;
    }
    let e = scan_spaces(v, pe + 1);
    if e == pe + 1 {
        return None;
    }
    let f = scan_digits(v, e);
    if f == e || f >= n {
        return None;
    }
    if v[f] != '/' {
        return None;
    }
    let g = scan_digits(v, f + 1);
    if g == f + 1 {
        return None;
    }
    let h = scan_spaces(v, g);
    if h == g || h >= n {
        return None;
    }
    if v[h] != '(' {
        return None;
    }
    let rs = parse_decimal(v, h + 1);
    let re = rs.end;
    if re == h + 1 || re >= n {
        return None;
    }
    if v[re] != ' ' {
        return None;
    }
    let is_fps = check_fps_tag(v, re + 1);
    let is_spf = check_spf_tag(v, re + 1);
    if !is_fps && !is_spf {
        return None;
    }
    let eta_start = if is_fps {
        re + 10
    } else {
        re + 11
    };
    if eta_start > n - 1 {
        return None;
    }
    if v[n - 1] != ')' {
        return None;
    }
    let cur64 = match parse_digits_val(v, e, f) {
        Some(x) => x,
        None => {
            return None;
        },
    };
    let tot64 = match parse_digits_val(v, f + 1, g) {
        Some(x) => x,
        None => {
            return None;
        },
    };
    if cur64 > u32::MAX as u64 || tot64 > u32::MAX as u64 {
        return None;
    }
    let pm = match ps.val {
        Some(x) => x,
        None => {
            return None;
        },
    };
    let rm = match rs.val {
        Some(x) => x,
        None => {
            return None;
        },
    };
    let fps_milli: u64 = if !is_fps {
        if rm == 0 {
            0
        } else {
            1000000 / rm
        }
    } else {
        rm
    };
    let mut eta = String::new();
    let mut idx: usize = eta_start;
    while idx < n - 1
        invariant
            eta_start <= idx <= n - 1,
            n == v.len(),
            n >= 1,
            eta@ == v@.subrange(eta_start as int, idx as int),
        decreases n - 1 - idx,
    {
        push_char(&mut eta, v[idx]);
        proof {
            assert(eta@ =~= v@.subrange(eta_start as int, (idx + 1) as int));
        }
        idx = idx + 1;
    }
    proof {
        assert(eta@ =~= v@.subrange(eta_start as int, n - 1));
    }
    Some(
        ProgressSnapshot {
            current: cur64 as u32,
            total: tot64 as u32,
            percent_milli: pm,
            fps_milli,
            eta,
        },
    )
}

/// How fast the encode runs, in thousandths of a frame per second: the rate
/// itself, or its reciprocal when it was printed as seconds per frame. A
/// zero rate inverts to zero.
pub open spec fn recip_milli(x: nat) -> nat {
    if x == 0 {
        0
    } else {
        1000000nat / x
    }
}

/// The snapshot's frame rate for a given model.
pub open spec fn model_fps_milli(m: SnapshotModel) -> nat {
    if m.rate_is_spf {
        recip_milli(m.rate_milli)
    } else {
        m.rate_milli
    }
}

/// Whether every numeric field of the model fits the snapshot's types.
pub open spec fn model_fits(m: SnapshotModel) -> bool {
    &&& m.current <= u32::MAX
    &&& m.total <= u32::MAX
    &&& m.percent_milli <= u64::MAX
    &&& m.rate_milli <= u64::MAX
}

/// What a line reads as: the bare frame-count shape is tried first, then the
/// rich shape; a line matching neither carries nothing. A bare line has a
/// computed percentage, no rate and no eta.
pub open spec fn spec_parse_line(s: Seq<char>) -> Option<SnapshotModel> {
    match spec_parse_bare(s) {
        Some((cur, tot)) => Some(
            SnapshotModel {
                current: cur,
                total: tot,
                percent_milli: spec_pct_milli(cur, tot),
                rate_milli: 0,
                rate_is_spf: false,
                eta: Seq::<char>::empty(),
            },
        ),
        None => spec_parse_rich(s),
    }
}

/// How a returned snapshot must relate to the line's reading: the snapshot
/// carries exactly the model's fields when they fit their types, and nothing
/// is returned otherwise.
pub open spec fn parse_result_ok(o: Option<SnapshotModel>, r: Option<ProgressSnapshot>) -> bool {
    match o {
        Some(m) => {
            if model_fits(m) {
                r matches Some(snap) && snap.current == m.current && snap.total == m.total
                    && snap.percent_milli == m.percent_milli && snap.fps_milli
                    == model_fps_milli(m) && snap.eta@ == m.eta
            } else {
                r is None
            }
        },
        None => r is None,
    }
}

/// Parses one line held as a character vector.
fn parse_line_chars(v: &Vec<char>) -> (r: Option<ProgressSnapshot>)
    ensures
        parse_result_ok(spec_parse_line(v@), r),
{
    let i = scan_digits(v, 0);
    if i > 0 {
        let j = scan_spaces(v, i);
        if j > i {
            let k = scan_digits(v, j);
            if k > j && k == v.len() {
                let cur64 = match parse_digits_val(v, 0, i) {
                    Some(x) => x,
                    None => {
                        return None;
                    },
                };
                let tot64 = match parse_digits_val(v, j, k) {
                    Some(x) => x,
                    None => {
                        return None;
                    },
                };
                if cur64 > u32::MAX as u64 || tot64 > u32::MAX as u64 {
                    return None;
                }
                let cur = cur64 as u32;
                let tot = tot64 as u32;
                let pct: u64 = if tot == 0 {
                    0
                } else {
                    (cur as u64) * 100000 / (tot as u64)
                };
                return Some(
                    ProgressSnapshot {
                        current: cur,
                        total: tot,
                        percent_milli: pct,
                        fps_milli: 0,
                        eta: String::new(),
                    },
                );
            }
        }
    }
    parse_rich(v)
}

/// Parses one line of the orchestrator's output. A recognised line yields a
/// snapshot whose fields are exactly the line's reading; a line matching
/// neither shape, or holding a numeric field too large for its type, yields
/// nothing.
pub fn parse_line(line: &str) -> (r: Option<ProgressSnapshot>)
    ensures
        parse_result_ok(spec_parse_line(line@), r),
{
    let v = chars_of(line);
    parse_line_chars(&v)
}

/// The persistent progress fields a consumer keeps between lines; each
/// recognised line overwrites all of them, and unrecognised lines change
/// nothing. Every field starts unset.
pub struct ProgressState {
    pub encoded_frames: Option<u32>,
    pub total_frames: Option<u32>,
    pub fps_milli: Option<u64>,
    pub eta_time: Option<String>,
}

/// The progress state with its eta as a character sequence.
pub ghost struct ProgressStateModel {
    pub encoded_frames: Option<u32>,
    pub total_frames: Option<u32>,
    pub fps_milli: Option<u64>,
    pub eta_time: Option<Seq<char>>,
}

impl View for ProgressState {
    type V = ProgressStateModel;

    open spec fn view(&self) -> ProgressStateModel {
        ProgressStateModel {
            encoded_frames: self.encoded_frames,
            total_frames: self.total_frames,
            fps_milli: self.fps_milli,
            eta_time: match self.eta_time {
                Some(e) => Some(e@),
                None => None,
            },
        }
    }
}

impl Default for ProgressState {
    /// No progress seen yet.
    fn default() -> (r: Self)
        ensures
            r@.encoded_frames is None,
            r@.total_frames is None,
            r@.fps_milli is None,
            r@.eta_time is None,
    {
        ProgressState { encoded_frames: None, total_frames: None, fps_milli: None, eta_time: None }
    }
}

/// What one line does to the progress state: a recognised line whose fields
/// fit their types overwrites every field; any other line leaves the state
/// as it is.
pub open spec fn spec_apply_line(st: ProgressStateModel, line: Seq<char>) -> ProgressStateModel {
    match spec_parse_line(line) {
        Some(m) => {
            if model_fits(m) {
                ProgressStateModel {
                    encoded_frames: Some(m.current as u32),
                    total_frames: Some(m.total as u32),
                    fps_milli: Some(model_fps_milli(m) as u64),
                    eta_time: Some(m.eta),
                }
            } else {
                st
            }
        },
        None => st,
    }
}

/// The lines applied in order.
pub open spec fn spec_apply_output(st: ProgressStateModel, lines: Seq<Seq<char>>) -> ProgressStateModel
    decreases lines.len(),
{
    if lines.len() == 0 {
        st
    } else {
        spec_apply_line(spec_apply_output(st, lines.drop_last()), lines.last())
    }
}

/// Applying a line, then the rest, is applying them all.
proof fn lemma_apply_output_cons(st: ProgressStateModel, l: Seq<char>, rest: Seq<Seq<char>>)
    ensures
        spec_apply_output(st, seq![l] + rest) == spec_apply_output(spec_apply_line(st, l), rest),
    decreases rest.len(),
{
    if rest.len() == 0 {
        assert((seq![l] + rest).drop_last() =~= Seq::<Seq<char>>::empty());
        assert((seq![l] + rest).last() == l);
    } else {
        assert((seq![l] + rest).drop_last() =~= seq![l] + rest.drop_last());
        assert((seq![l] + rest).last() == rest.last());
        lemma_apply_output_cons(st, l, rest.drop_last());
    }
}

/// First index at or after `i` that holds a line break, or the length.
pub open spec fn line_end(s: Seq<char>, i: int) -> int
    decreases s.len() - i,
{
    if i < 0 || i >= s.len() || s[i] == '\n' {
        i
    } else {
        line_end(s, i + 1)
    }
}

/// The text split at line breaks, starting from `i`.
pub open spec fn spec_lines_from(s: Seq<char>, i: int) -> Seq<Seq<char>>
    decreases s.len() - i,
{
    if i < 0 || i >= s.len() {
        Seq::<Seq<char>>::empty()
    } else {
        let j = line_end(s, i);
        if i <= j && j < s.len() {
            seq![s.subrange(i, j)] + spec_lines_from(s, j + 1)
        } else {
            seq![s.subrange(i, s.len() as int)]
        }
    }
}

/// The text split at line breaks: empty text has no lines, and a trailing
/// break opens no further line.
pub open spec fn spec_lines(s: Seq<char>) -> Seq<Seq<char>> {
    spec_lines_from(s, 0)
}

/// Scans to the next line break: returns `line_end` of `from`.
fn scan_to_newline(v: &Vec<char>, from: usize) -> (r: usize)
    requires
        from <= v.len(),
    ensures
        from <= r <= v.len(),
        r == line_end(v@, from as int),
{
    let mut i: usize = from;
    while i < v.len() && v[i] != '\n'
        invariant
            from <= i <= v.len(),
            line_end(v@, from as int) == line_end(v@, i as int),
        decreases v.len() - i,
    {
        i = i + 1;
    }
    proof {
        assert(line_end(v@, i as int) == i);
    }
    i
}

/// Overwrites every progress field from one snapshot.
pub fn apply_snapshot(state: &mut ProgressState, snap: &ProgressSnapshot)
    ensures
        final(state)@.encoded_frames == Some(snap.current),
        final(state)@.total_frames == Some(snap.total),
        final(state)@.fps_milli == Some(snap.fps_milli),
        final(state)@.eta_time == Some(snap.eta@),
{
    state.encoded_frames = Some(snap.current);
    state.total_frames = Some(snap.total);
    state.fps_milli = Some(snap.fps_milli);
    state.eta_time = Some(snap.eta.clone());
}

/// Feeds a chunk of orchestrator output to the progress state, line by line:
/// each recognised line overwrites the whole state, every other line is
/// ignored, and no input ever faults.
pub fn parse_av1an_output(output: &str, state: &mut ProgressState)
    ensures
        final(state)@ == spec_apply_output(old(state)@, spec_lines(output@)),
{
    let v = chars_of(output);
    let n = v.len();
    let mut i: usize = 0;
    while i < n
        invariant
            i <= n,
            n == v.len(),
            v@ == output@,
            spec_apply_output(old(state)@, spec_lines(output@)) == spec_apply_output(
                state@,
                spec_lines_from(output@, i as int),
            ),
        decreases n - i,
    {
        let je = scan_to_newline(&v, i);
        let mut lv: Vec<char> = Vec::new();
        let mut t: usize = i;
        while t < je
            invariant
                i <= t <= je <= n,
                n == v.len(),
                lv@ == v@.subrange(i as int, t as int),
            decreases je - t,
        {
            lv.push(v[t]);
            proof {
                assert(lv@ =~= v@.subrange(i as int, (t + 1) as int));
            }
            t = t + 1;
        }
        let ghost pre_state = state@;
        match parse_line_chars(&lv) {
            Some(snap) => {
                apply_snapshot(state, &snap);
            },
            None => {},
        }
        proof {
            assert(state@ == spec_apply_line(pre_state, lv@));
        }
        if je < n {
            proof {
                assert(spec_lines_from(v@, i as int) =~= seq![v@.subrange(i as int, je as int)]
                    + spec_lines_from(v@, (je + 1) as int));
                lemma_apply_output_cons(pre_state, lv@, spec_lines_from(v@, (je + 1) as int));
            }
            i = je + 1;
        } else {
            proof {
                assert(spec_lines_from(v@, i as int) =~= seq![v@.subrange(i as int, n as int)]);
                lemma_apply_output_cons(pre_state, lv@, Seq::<Seq<char>>::empty());
                assert(seq![lv@] + Seq::<Seq<char>>::empty() =~= seq![lv@]);
            }
            i = je;
            proof {
                assert(spec_lines_from(v@, i as int) =~= Seq::<Seq<char>>::empty()) by {
                    assert(i == n);
                }
            }
            return;
        }
    }
}

impl ProgressState {
    /// Fraction of the job done, in thousandths of a percent, from the last
    /// counters seen: zero while either counter is unknown or the total is
    /// zero.
    pub fn percent_milli(&self) -> (r: u64)
        ensures
            r as nat == spec_pct_milli(
                (match self@.encoded_frames {
                    Some(x) => x,
                    None => 0u32,
                }) as nat,
                (match self@.total_frames {
                    Some(x) => x,
                    None => 0u32,
                }) as nat,
            ),
    {
        let cur = match self.encoded_frames {
            Some(x) => x,
            None => 0,
        };
        let tot = match self.total_frames {
            Some(x) => x,
            None => 0,
        };
        if tot == 0 {
            0
        } else {
            (cur as u64) * 100000 / (tot as u64)
        }
    }
}

} // verus!
