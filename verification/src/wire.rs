//! The textual wire format shared by every Focus API data payload:
//! space-separated decimal integers.
//!
//! This module gives the two primitives the grammars are built from:
//! reading one bounded decimal integer at a position in a string, and
//! rendering integers back to decimal text.

use vstd::prelude::*;

verus! {

/// A decimal digit character.
pub open spec fn is_digit_char(c: char) -> bool {
    48 <= c as u32 <= 57
}

/// A blank character: the separators allowed between wire values, a
/// space or a tab.
pub open spec fn is_blank_char(c: char) -> bool {
    c == ' ' || c == '\t'
}

/// Blank test on a character.
pub fn char_is_blank(c: char) -> (r: bool)
    ensures
        r == is_blank_char(c),
{
    c == ' ' || c == '\t'
}

/// Numeric value of a digit character.
pub open spec fn digit_val(c: char) -> int {
    c as u32 - 48
}

/// Digit character for a value below ten.
pub open spec fn digit_char(d: int) -> char {
    if d == 0 {
        '0'
    } else if d == 1 {
        '1'
    } else if d == 2 {
        '2'
    } else if d == 3 {
        '3'
    } else if d == 4 {
        '4'
    } else if d == 5 {
        '5'
    } else if d == 6 {
        '6'
    } else if d == 7 {
        '7'
    } else if d == 8 {
        '8'
    } else {
        '9'
    }
}

/// Value of a run of digit characters, most significant first.
pub open spec fn dec_value(s: Seq<char>) -> int
    decreases s.len(),
{
    if s.len() == 0 {
        0
    } else {
        dec_value(s.drop_last()) * 10 + digit_val(s.last())
    }
}

/// Decimal rendering of a nonnegative integer, without leading zeros.
pub open spec fn dec_render(n: int) -> Seq<char>
    decreases n,
{
    if n < 10 {
        seq![digit_char(n)]
    } else {
        dec_render(n / 10).push(digit_char(n % 10))
    }
}

/// End of the digit run starting at `i`: the first index at or after `i`
/// holding no digit.
pub open spec fn digits_end(s: Seq<char>, i: int) -> int
    decreases s.len() - i,
{
    if i < 0 {
        i
    } else if i >= s.len() || !is_digit_char(s[i]) {
        i
    } else {
        digits_end(s, i + 1)
    }
}

/// Reading one decimal integer at position `i`, bounded by `max`.
/// A leading `0` is a complete number on its own; otherwise the whole
/// digit run is consumed. A missing digit or a value over the bound
/// reads nothing.
pub open spec fn spec_read_uint(s: Seq<char>, i: int, max: int) -> Option<(int, int)> {
    if 0 <= i < s.len() && is_digit_char(s[i]) {
        if s[i] == '0' {
            Some((0, i + 1))
        } else {
            let j = digits_end(s, i);
            let v = dec_value(s.subrange(i, j));
            if v <= max {
                Some((v, j))
            } else {
                None
            }
        }
    } else {
        None
    }
}

/// End of the blank run starting at `i`.
pub open spec fn blanks_end(s: Seq<char>, i: int) -> int
    decreases s.len() - i,
{
    if i < 0 {
        i
    } else if i >= s.len() || !is_blank_char(s[i]) {
        i
    } else {
        blanks_end(s, i + 1)
    }
}

/// Skipping one or more blanks at position `i`: yields the first
/// position after the run, and nothing when no blank stands at `i`.
pub open spec fn spec_skip_blanks(s: Seq<char>, i: int) -> Option<int> {
    if 0 <= i < s.len() && is_blank_char(s[i]) {
        Some(blanks_end(s, i))
    } else {
        None
    }
}

pub proof fn lemma_blanks_end_bounds(s: Seq<char>, i: int)
    requires
        0 <= i <= s.len(),
    ensures
        i <= blanks_end(s, i) <= s.len(),
        forall|k: int| i <= k < blanks_end(s, i) ==> is_blank_char(s[k]),
        blanks_end(s, i) < s.len() ==> !is_blank_char(s[blanks_end(s, i)]),
    decreases s.len() - i,
{
    if i < s.len() && is_blank_char(s[i]) {
        lemma_blanks_end_bounds(s, i + 1);
    }
}

/// Skips one or more blanks at position `i` of `s`.
pub fn skip_blanks(s: &str, i: usize) -> (r: Option<usize>)
    requires
        i <= s@.len(),
    ensures
        match r {
            Some(j) => spec_skip_blanks(s@, i as int) == Some(j as int),
            None => spec_skip_blanks(s@, i as int) is None,
        },
{
    let len = s.unicode_len();
    if i >= len || !char_is_blank(s.get_char(i)) {
        return None;
    }
    proof {
        lemma_blanks_end_bounds(s@, i as int);
    }
    let mut j: usize = i;
    while j < len && char_is_blank(s.get_char(j))
        invariant
            i <= j <= len,
            len == s@.len(),
            j <= blanks_end(s@, i as int),
            forall|k: int| i <= k < blanks_end(s@, i as int) ==> is_blank_char(s@[k]),
            blanks_end(s@, i as int) < s@.len() ==> !is_blank_char(s@[blanks_end(s@, i as int)]),
            (j as int) < blanks_end(s@, i as int) ==> is_blank_char(s@[j as int]),
        decreases len - j,
    {
        j = j + 1;
        proof {
            let e = blanks_end(s@, i as int);
            assert(j as int <= e) by {
                if (j as int) > e {
                    assert(is_blank_char(s@[j - 1 as int]));
                    assert(e <= j - 1 < s@.len());
                }
            }
        }
    }
    proof {
        let e = blanks_end(s@, i as int);
        assert(j as int == e) by {
            if (j as int) < e {
                assert(is_blank_char(s@[j as int]));
            }
        }
    }
    Some(j)
}

pub proof fn lemma_digits_end_bounds(s: Seq<char>, i: int)
    requires
        0 <= i <= s.len(),
    ensures
        i <= digits_end(s, i) <= s.len(),
        forall|k: int| i <= k < digits_end(s, i) ==> is_digit_char(s[k]),
        digits_end(s, i) < s.len() ==> !is_digit_char(s[digits_end(s, i)]),
    decreases s.len() - i,
{
    if i < s.len() && is_digit_char(s[i]) {
        lemma_digits_end_bounds(s, i + 1);
    }
}

pub proof fn lemma_dec_value_nonneg(s: Seq<char>)
    requires
        forall|k: int| 0 <= k < s.len() ==> is_digit_char(s[k]),
    ensures
        dec_value(s) >= 0,
    decreases s.len(),
{
    if s.len() > 0 {
        lemma_dec_value_nonneg(s.drop_last());
    }
}

/// Reads one decimal integer bounded by `max` at position `i` of `s`.
/// Consumes the entire digit run; yields nothing when no digit stands at
/// `i` or the run's value exceeds the bound.
pub fn read_uint(s: &str, i: usize, max: u16) -> (r: Option<(u16, usize)>)
    requires
        i <= s@.len(),
        s@.len() <= usize::MAX,
    ensures
        match r {
            Some((v, j)) => spec_read_uint(s@, i as int, max as int) == Some((v as int, j as int)),
            None => spec_read_uint(s@, i as int, max as int) is None,
        },
{
    let len = s.unicode_len();
    if i >= len {
        return None;
    }
    let c0 = s.get_char(i);
    if !char_is_digit(c0) {
        return None;
    }
    if c0 == '0' {
        return Some((0, i + 1));
    }
    proof {
        lemma_digits_end_bounds(s@, i as int);
    }
    let ghost end = digits_end(s@, i as int);
    let mut j: usize = i;
    let mut acc: u32 = 0;
    let mut over: bool = false;
    while j < len && char_is_digit(s.get_char(j))
        invariant
            i <= j <= len,
            len == s@.len(),
            i as int <= end <= len,
            forall|k: int| i <= k < end ==> is_digit_char(s@[k]),
            end < s@.len() ==> !is_digit_char(s@[end]),
            j <= end,
            (j as int) < end ==> is_digit_char(s@[j as int]),
            over <==> dec_value(s@.subrange(i as int, j as int)) > max,
            !over ==> acc == dec_value(s@.subrange(i as int, j as int)),
            acc <= max,
        decreases len - j,
    {
        let c = s.get_char(j);
        let d: u32 = c as u32 - 48;
        proof {
            assert(s@.subrange(i as int, j + 1 as int).drop_last() =~= s@.subrange(
                i as int,
                j as int,
            ));
            if dec_value(s@.subrange(i as int, j as int)) > max {
                lemma_dec_value_nonneg(s@.subrange(i as int, j as int));
            }
        }
        if !over {
            let next: u32 = acc * 10 + d;
            if next > max as u32 {
                over = true;
            } else {
                acc = next;
            }
        }
        j = j + 1;
        proof {
            if j as int <= end {
            } else {
                assert(j as int == end + 1 || !is_digit_char(s@[end]));
            }
            assert(j as int <= end) by {
                if (j as int) > end {
                    assert(is_digit_char(s@[j - 1 as int]));
                    assert(end <= j - 1 < s@.len());
                }
            }
        }
    }
    proof {
        assert(j as int == end) by {
            if (j as int) < end {
                assert(is_digit_char(s@[j as int]));
            }
        }
    }
    if over {
        None
    } else {
        Some((acc as u16, j))
    }
}

/// Skips zero or more blanks at position `i` of `s`.
pub fn skip_blanks0(s: &str, i: usize) -> (j: usize)
    requires
        i <= s@.len(),
    ensures
        j == blanks_end(s@, i as int),
        i <= j <= s@.len(),
{
    proof {
        lemma_blanks_end_bounds(s@, i as int);
    }
    if i >= s.unicode_len() || !char_is_blank(s.get_char(i)) {
        return i;
    }
    match skip_blanks(s, i) {
        Some(j) => j,
        None => i,
    }
}

/// A whole input read as a list of decimal 16-bit values separated by
/// blanks, with blanks allowed around them. Nothing when anything else
/// stands in the input or a value does not fit 16 bits.
pub open spec fn spec_u16_list_at(s: Seq<char>, i: int) -> Option<Seq<u16>>
    decreases s.len() - i,
    when 0 <= i <= s.len()
    via spec_u16_list_at_decreases
{
    let j = blanks_end(s, i);
    if j >= s.len() {
        Some(Seq::empty())
    } else {
        match spec_read_uint(s, j, 65535) {
            None => None,
            Some((v, k)) => match spec_u16_list_at(s, k) {
                None => None,
                Some(rest) => Some(seq![v as u16] + rest),
            },
        }
    }
}

#[via_fn]
proof fn spec_u16_list_at_decreases(s: Seq<char>, i: int) {
    lemma_blanks_end_bounds(s, i);
    let j = blanks_end(s, i);
    if j < s.len() && spec_read_uint(s, j, 65535) is Some {
        lemma_read_uint_advances(s, j, 65535);
    }
}

/// The values of a whole space-separated decimal list.
pub open spec fn spec_u16_list(s: Seq<char>) -> Option<Seq<u16>> {
    spec_u16_list_at(s, 0)
}

/// Reads a whole input as a list of blank-separated decimal 16-bit
/// values.
pub fn parse_u16_list(s: &str) -> (r: Option<Vec<u16>>)
    requires
        s@.len() <= usize::MAX,
    ensures
        match r {
            Some(v) => spec_u16_list(s@) == Some(v@),
            None => spec_u16_list(s@) is None,
        },
{
    let len = s.unicode_len();
    let mut out: Vec<u16> = Vec::new();
    let mut i: usize = 0;
    loop
        invariant
            i <= len,
            len == s@.len(),
            s@.len() <= usize::MAX,
            spec_u16_list_at(s@, i as int) is Some ==> spec_u16_list(s@) == Some(
                out@ + spec_u16_list_at(s@, i as int)->Some_0,
            ),
            spec_u16_list_at(s@, i as int) is None ==> spec_u16_list(s@) is None,
        decreases len - i,
    {
        let j = skip_blanks0(s, i);
        if j >= len {
            proof {
                assert(spec_u16_list_at(s@, i as int) == Some(Seq::<u16>::empty()));
                assert(out@ + Seq::<u16>::empty() =~= out@);
            }
            return Some(out);
        }
        let (v, k) = match read_uint(s, j, 65535) {
            Some(x) => x,
            None => {
                return None;
            },
        };
        proof {
            lemma_read_uint_advances(s@, j as int, 65535);
            let tail = spec_u16_list_at(s@, k as int);
            assert(spec_u16_list_at(s@, i as int) == (match tail {
                None => None::<Seq<u16>>,
                Some(rest) => Some(seq![v] + rest),
            }));
            if tail is Some {
                assert(out@ + (seq![v] + tail->Some_0) =~= (out@ + seq![v]) + tail->Some_0);
            }
        }
        out.push(v);
        i = k;
    }
}

pub proof fn lemma_read_uint_advances(s: Seq<char>, i: int, max: int)
    requires
        spec_read_uint(s, i, max) is Some,
    ensures
        i < spec_read_uint(s, i, max)->Some_0.1 <= s.len(),
{
    lemma_digits_end_bounds(s, i);
    if s[i] != '0' {
        assert(is_digit_char(s[i]));
    }
}

pub proof fn lemma_skip_blanks_advances(s: Seq<char>, i: int)
    requires
        spec_skip_blanks(s, i) is Some,
    ensures
        i < spec_skip_blanks(s, i)->Some_0 <= s.len(),
{
    lemma_blanks_end_bounds(s, i);
}

/// Digit test on a character.
pub fn char_is_digit(c: char) -> (r: bool)
    ensures
        r == is_digit_char(c),
{
    let u = c as u32;
    48 <= u && u <= 57
}

/// One-character string for a digit value.
fn digit_str(d: u16) -> (r: &'static str)
    requires
        d < 10,
    ensures
        r@ =~= seq![digit_char(d as int)],
{
    proof {
        reveal_strlit("0");
        reveal_strlit("1");
        reveal_strlit("2");
        reveal_strlit("3");
        reveal_strlit("4");
        reveal_strlit("5");
        reveal_strlit("6");
        reveal_strlit("7");
        reveal_strlit("8");
        reveal_strlit("9");
    }
    match d {
        0 => "0",
        1 => "1",
        2 => "2",
        3 => "3",
        4 => "4",
        5 => "5",
        6 => "6",
        7 => "7",
        8 => "8",
        _ => "9",
    }
}

/// Renders an integer as decimal text.
pub fn render_u16(n: u16) -> (s: String)
    ensures
        s@ == dec_render(n as int),
    decreases n,
{
    if n < 10 {
        let s = String::from_str(digit_str(n));
        proof {
            assert(s@ =~= dec_render(n as int));
        }
        s
    } else {
        let mut s = render_u16(n / 10);
        s.append(digit_str(n % 10));
        proof {
            assert(s@ =~= dec_render(n as int));
        }
        s
    }
}

/// Every rendered character is a digit, the run is nonempty, and reading
/// the rendering back yields the value.
pub proof fn lemma_dec_render_value(n: int)
    requires
        n >= 0,
    ensures
        dec_render(n).len() >= 1,
        forall|k: int| 0 <= k < dec_render(n).len() ==> is_digit_char(#[trigger] dec_render(n)[k]),
        dec_value(dec_render(n)) == n,
    decreases n,
{
    if n < 10 {
        assert(dec_value(dec_render(n)) == dec_value(seq![digit_char(n)].drop_last()) * 10
            + digit_val(digit_char(n)));
        assert(seq![digit_char(n)].drop_last() =~= Seq::<char>::empty());
    } else {
        lemma_dec_render_value(n / 10);
        assert(dec_render(n).drop_last() =~= dec_render(n / 10));
        assert(dec_render(n).last() == digit_char(n % 10));
    }
}

/// The values joined by single spaces, in order.
pub open spec fn spec_join(v: Seq<u16>) -> Seq<char>
    decreases v.len(),
{
    if v.len() == 0 {
        Seq::empty()
    } else if v.len() == 1 {
        dec_render(v[0] as int)
    } else {
        spec_join(v.drop_last()) + seq![' '] + dec_render(v.last() as int)
    }
}

/// Joins the values with single spaces.
pub fn join_u16s(v: &Vec<u16>) -> (s: String)
    ensures
        s@ == spec_join(v@),
{
    let mut s = String::new();
    let mut k: usize = 0;
    while k < v.len()
        invariant
            k <= v.len(),
            s@ == spec_join(v@.subrange(0, k as int)),
        decreases v.len() - k,
    {
        if k > 0 {
            s.append(" ");
            proof {
                reveal_strlit(" ");
            }
        }
        let piece = render_u16(v[k]);
        s.append(piece.as_str());
        k = k + 1;
        proof {
            let pre = v@.subrange(0, k as int);
            assert(pre.drop_last() =~= v@.subrange(0, k - 1 as int));
            if k > 1 {
                assert(s@ =~= spec_join(pre.drop_last()) + seq![' '] + dec_render(pre.last() as int));
            } else {
                assert(s@ =~= dec_render(pre[0] as int));
            }
        }
    }
    proof {
        assert(v@.subrange(0, v@.len() as int) =~= v@);
    }
    s
}

} // verus!
