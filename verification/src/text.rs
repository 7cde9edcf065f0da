//! Character-level helpers shared by the record decoders: whitespace
//! trimming, decimal digits, and conversion between strings and character
//! vectors.

use vstd::prelude::*;

verus! {

/// The number of columns of a record.
pub const RECORD_WIDTH: usize = 94;

/// Whether `c` carries the Unicode `White_Space` property.
pub open spec fn is_space(c: char) -> bool {
    ||| ('\u{9}' <= c && c <= '\u{d}')
    ||| c == ' '
    ||| c == '\u{85}'
    ||| c == '\u{a0}'
    ||| c == '\u{1680}'
    ||| ('\u{2000}' <= c && c <= '\u{200a}')
    ||| c == '\u{2028}'
    ||| c == '\u{2029}'
    ||| c == '\u{202f}'
    ||| c == '\u{205f}'
    ||| c == '\u{3000}'
}

/// Executable test for [`is_space`].
pub fn char_is_space(c: char) -> (b: bool)
    ensures
        b == is_space(c),
{
    ('\u{9}' <= c && c <= '\u{d}') || c == ' ' || c == '\u{85}' || c == '\u{a0}' || c
        == '\u{1680}' || ('\u{2000}' <= c && c <= '\u{200a}') || c == '\u{2028}' || c
        == '\u{2029}' || c == '\u{202f}' || c == '\u{205f}' || c == '\u{3000}'
}

/// `s` without its leading white space.
pub open spec fn trim_front(s: Seq<char>) -> Seq<char>
    decreases s.len(),
{
    if s.len() > 0 && is_space(s[0]) {
        trim_front(s.drop_first())
    } else {
        s
    }
}

/// `s` without its trailing white space.
pub open spec fn trim_back(s: Seq<char>) -> Seq<char>
    decreases s.len(),
{
    if s.len() > 0 && is_space(s.last()) {
        trim_back(s.drop_last())
    } else {
        s
    }
}

/// `s` without leading and trailing white space.
pub open spec fn trimmed(s: Seq<char>) -> Seq<char> {
    trim_back(trim_front(s))
}

/// The characters of `s`, in order.
pub fn chars_of(s: &str) -> (v: Vec<char>)
    ensures
        v@ == s@,
{
    let mut v: Vec<char> = Vec::new();
    for c in it: s.chars()
        invariant
            it.seq() == s@,
            v@ == it.seq().take(it.index() as int),
    {
        v.push(c);
    }
    v
}

/// Dropping `k` leading white-space characters, the next character being
/// none, is what [`trim_front`] does.
pub proof fn lemma_trim_front(s: Seq<char>, k: int)
    requires
        0 <= k <= s.len(),
        forall|i: int| 0 <= i < k ==> is_space(#[trigger] s[i]),
        k < s.len() ==> !is_space(s[k]),
    ensures
        trim_front(s) == s.subrange(k, s.len() as int),
    decreases k,
{
    if k == 0 {
        assert(s.subrange(0, s.len() as int) =~= s);
    } else {
        let t = s.drop_first();
        assert forall|i: int| 0 <= i < k - 1 implies is_space(#[trigger] t[i]) by {
            assert(t[i] == s[i + 1]);
        }
        lemma_trim_front(t, k - 1);
        assert(t.subrange(k - 1, t.len() as int) =~= s.subrange(k, s.len() as int));
    }
}

/// Keeping the first `k` characters, all after them being white space and
/// the last kept one being none, is what [`trim_back`] does.
pub proof fn lemma_trim_back(s: Seq<char>, k: int)
    requires
        0 <= k <= s.len(),
        forall|i: int| k <= i < s.len() ==> is_space(#[trigger] s[i]),
        k > 0 ==> !is_space(s[k - 1]),
    ensures
        trim_back(s) == s.subrange(0, k),
    decreases s.len() - k,
{
    if k == s.len() {
        assert(s.subrange(0, k) =~= s);
    } else {
        let t = s.drop_last();
        lemma_trim_back(t, k);
        assert(t.subrange(0, k) =~= s.subrange(0, k));
    }
}

/// The bounds of the trimmed part of `v[start..end]`.
pub fn trim_bounds(v: &Vec<char>, start: usize, end: usize) -> (r: (usize, usize))
    requires
        start <= end <= v@.len(),
    ensures
        start <= r.0 <= r.1 <= end,
        v@.subrange(r.0 as int, r.1 as int) == trimmed(v@.subrange(start as int, end as int)),
{
    let mut a: usize = start;
    while a < end && char_is_space(v[a])
        invariant
            start <= a <= end <= v@.len(),
            forall|i: int| start <= i < a ==> is_space(#[trigger] v@[i]),
        decreases end - a,
    {
        a += 1;
    }
    let mut b: usize = end;
    while b > a && char_is_space(v[b - 1])
        invariant
            a <= b <= end <= v@.len(),
            forall|i: int| b <= i < end ==> is_space(#[trigger] v@[i]),
        decreases b - a,
    {
        b -= 1;
    }
    proof {
        let whole = v@.subrange(start as int, end as int);
        lemma_trim_front(whole, a - start);
        let front = whole.subrange(a - start, whole.len() as int);
        assert(front =~= v@.subrange(a as int, end as int));
        lemma_trim_back(front, b - a);
        assert(front.subrange(0, b - a) =~= v@.subrange(a as int, b as int));
    }
    (a, b)
}

/// `String::push` appends one character to the end of the string.
pub assume_specification[ String::push ](s: &mut String, ch: char)
    ensures
        final(s)@ == old(s)@.push(ch),
;

/// The string made of the characters `v[from..to]`.
pub fn string_of(v: &Vec<char>, from: usize, to: usize) -> (s: String)
    requires
        from <= to <= v@.len(),
    ensures
        s@ == v@.subrange(from as int, to as int),
{
    let mut s = String::new();
    let mut i: usize = from;
    while i < to
        invariant
            from <= i <= to <= v@.len(),
            s@ == v@.subrange(from as int, i as int),
        decreases to - i,
    {
        s.push(v[i]);
        i += 1;
        assert(v@.subrange(from as int, i as int) =~= v@.subrange(from as int, i - 1).push(
            v@[i - 1],
        ));
    }
    s
}

/// The text of the column range `start..end` of a line: its characters
/// without the surrounding white space.
pub open spec fn field(line: Seq<char>, start: int, end: int) -> Seq<char> {
    trimmed(line.subrange(start, end))
}

/// Decodes a text field: the trimmed characters of `line[start..end]`.
pub fn text_field(line: &Vec<char>, start: usize, end: usize) -> (s: String)
    requires
        start <= end <= line@.len(),
    ensures
        s@ == field(line@, start as int, end as int),
{
    let (a, b) = trim_bounds(line, start, end);
    string_of(line, a, b)
}

/// Whether `c` is one of the ten ASCII decimal digits.
pub open spec fn is_digit(c: char) -> bool {
    '0' <= c && c <= '9'
}

/// The value of a decimal digit; zero for any other character.
pub open spec fn digit_value(c: char) -> nat {
    if is_digit(c) {
        (c as int - '0' as int) as nat
    } else {
        0
    }
}

/// Whether every character of `s` is a decimal digit.
pub open spec fn all_digits(s: Seq<char>) -> bool {
    forall|i: int| 0 <= i < s.len() ==> is_digit(#[trigger] s[i])
}

/// The number that the digits of `s` write in base ten, most significant
/// digit first.
pub open spec fn decimal_value(s: Seq<char>) -> nat
    decreases s.len(),
{
    if s.len() == 0 {
        0
    } else {
        10 * decimal_value(s.drop_last()) + digit_value(s.last())
    }
}

/// The non-negative integer that `s` denotes: `s` must be a non-empty run
/// of decimal digits whose value fits in 64 bits.
pub open spec fn number_of(s: Seq<char>) -> Option<u64> {
    if s.len() > 0 && all_digits(s) && decimal_value(s) <= u64::MAX {
        Some(decimal_value(s) as u64)
    } else {
        None
    }
}

/// A prefix of a digit string never denotes more than the whole string.
pub proof fn lemma_decimal_prefix(s: Seq<char>, k: int)
    requires
        0 <= k <= s.len(),
    ensures
        decimal_value(s.take(k)) <= decimal_value(s),
    decreases s.len() - k,
{
    if k == s.len() {
        assert(s.take(k) =~= s);
    } else {
        lemma_decimal_prefix(s.drop_last(), k);
        assert(s.drop_last().take(k) =~= s.take(k));
    }
}

/// Reads `line[from..to]` as a non-negative decimal integer.
pub fn parse_number(line: &Vec<char>, from: usize, to: usize) -> (r: Option<u64>)
    requires
        from <= to <= line@.len(),
    ensures
        r == number_of(line@.subrange(from as int, to as int)),
{
    let ghost digits = line@.subrange(from as int, to as int);
    if from == to {
        return None;
    }
    let mut acc: u64 = 0;
    let mut i: usize = from;
    while i < to
        invariant
            from <= i <= to <= line@.len(),
            digits == line@.subrange(from as int, to as int),
            all_digits(digits.take(i - from)),
            acc == decimal_value(digits.take(i - from)),
        decreases to - i,
    {
        let c = line[i];
        proof {
            assert(digits.take(i - from + 1).drop_last() =~= digits.take(i - from));
            assert(digits.take(i - from + 1).last() == c);
            lemma_decimal_prefix(digits, i - from + 1);
        }
        if !('0' <= c && c <= '9') {
            assert(!is_digit(digits[i - from]));
            return None;
        }
        let d: u64 = (c as u32 - '0' as u32) as u64;
        let shifted = match acc.checked_mul(10) {
            Some(x) => x,
            None => {
                return None;
            },
        };
        acc = match shifted.checked_add(d) {
            Some(x) => x,
            None => {
                return None;
            },
        };
        i += 1;
        assert forall|j: int| 0 <= j < i - from implies is_digit(
            #[trigger] digits.take(i - from)[j],
        ) by {
            if j < i - from - 1 {
                assert(digits.take(i - from)[j] == digits.take(i - from - 1)[j]);
            }
        }
    }
    assert(digits.take(to - from) =~= digits);
    Some(acc)
}

/// Decodes a numeric field: the trimmed characters of `line[start..end]`
/// read as a non-negative decimal integer.
pub fn number_field(line: &Vec<char>, start: usize, end: usize) -> (r: Option<u64>)
    requires
        start <= end <= line@.len(),
    ensures
        r == number_of(field(line@, start as int, end as int)),
{
    let (a, b) = trim_bounds(line, start, end);
    parse_number(line, a, b)
}

/// `line` without the carriage return at its end, if it has one.
pub open spec fn strip_cr(line: Seq<char>) -> Seq<char> {
    if line.len() > 0 && line.last() == '\r' {
        line.drop_last()
    } else {
        line
    }
}

/// Where reading `s` one character at a time stands: the lines that a line
/// feed has ended, and the characters of the line that is still open.
pub open spec fn split_state(s: Seq<char>) -> (Seq<Seq<char>>, Seq<char>)
    decreases s.len(),
{
    if s.len() == 0 {
        (Seq::empty(), Seq::empty())
    } else {
        let (done, open) = split_state(s.drop_last());
        if s.last() == '\n' {
            (done.push(strip_cr(open)), Seq::empty())
        } else {
            (done, open.push(s.last()))
        }
    }
}

/// The lines of `s`. A line ends at a line feed, or at a carriage return
/// directly followed by one; neither belongs to the line. What follows the
/// last line feed is a line too, unless it is empty.
pub open spec fn lines_of(s: Seq<char>) -> Seq<Seq<char>> {
    let (done, open) = split_state(s);
    if open.len() == 0 {
        done
    } else {
        done.push(open)
    }
}

/// The lines held in `lines`, each as a sequence of characters.
pub open spec fn lines_view(lines: Seq<Vec<char>>) -> Seq<Seq<char>> {
    lines.map_values(|l: Vec<char>| l@)
}

/// Splits a text into its lines.
pub fn split_lines(content: &str) -> (lines: Vec<Vec<char>>)
    ensures
        lines_view(lines@) == lines_of(content@),
{
    let mut lines: Vec<Vec<char>> = Vec::new();
    let mut open: Vec<char> = Vec::new();
    assert(lines_view(lines@) =~= Seq::empty());
    assert(content@.take(0) =~= Seq::empty());
    for c in it: content.chars()
        invariant
            it.seq() == content@,
            (lines_view(lines@), open@) == split_state(content@.take(it.index() as int)),
    {
        proof {
            let next = content@.take(it.index() + 1);
            assert(next.drop_last() =~= content@.take(it.index() as int));
            assert(next.last() == c);
        }
        if c == '\n' {
            let n = open.len();
            if n > 0 && open[n - 1] == '\r' {
                open.pop();
            }
            let ghost before = lines_view(lines@);
            lines.push(open);
            assert(lines_view(lines@) =~= before.push(open@));
            open = Vec::new();
        } else {
            open.push(c);
        }
    }
    assert(content@.take(content@.len() as int) =~= content@);
    if open.len() > 0 {
        let ghost before = lines_view(lines@);
        lines.push(open);
        assert(lines_view(lines@) =~= before.push(open@));
    }
    lines
}

} // verus!
