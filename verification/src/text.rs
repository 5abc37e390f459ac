//! Text helpers over the character view of strings: substring search,
//! decimal rendering and line splitting.

use vstd::prelude::*;
use vstd::string::*;

verus! {

/// `needle` occurs in `hay` starting at index `i`.
pub open spec fn occurs_at(hay: Seq<char>, needle: Seq<char>, i: int) -> bool {
    &&& 0 <= i
    &&& i + needle.len() <= hay.len()
    &&& hay.subrange(i, i + needle.len()) == needle
}

/// `needle` occurs somewhere in `hay` as a contiguous run of characters.
/// The empty sequence occurs in every sequence.
pub open spec fn has_substring(hay: Seq<char>, needle: Seq<char>) -> bool {
    exists|i: int| occurs_at(hay, needle, i)
}

/// The characters of `s`, in order.
pub fn to_chars(s: &str) -> (v: Vec<char>)
    ensures
        v@ == s@,
{
    let mut v: Vec<char> = Vec::new();
    for c in it: s.chars()
        invariant
            it.seq() == s@,
            v@ == s@.take(it.index() as int),
    {
        v.push(c);
    }
    v
}

/// Whether `needle` occurs in `hay` at index `at`.
fn matches_at(hay: &Vec<char>, needle: &Vec<char>, at: usize) -> (b: bool)
    requires
        at + needle.len() <= hay.len(),
    ensures
        b == occurs_at(hay@, needle@, at as int),
{
    let mut j: usize = 0;
    while j < needle.len()
        invariant
            j <= needle.len(),
            at + needle.len() <= hay.len(),
            forall|k: int| 0 <= k < j ==> hay@[at + k] == needle@[k],
        decreases needle.len() - j,
    {
        if hay[at + j] != needle[j] {
            proof {
                // The window differs from the needle at `j`.
                let window = hay@.subrange(at as int, at + needle@.len());
                assert(window[j as int] != needle@[j as int]);
            }
            return false;
        }
        j += 1;
    }
    assert(hay@.subrange(at as int, at + needle@.len()) =~= needle@);
    true
}

/// Substring search over character vectors.
pub fn contains_chars(hay: &Vec<char>, needle: &Vec<char>) -> (b: bool)
    ensures
        b == has_substring(hay@, needle@),
{
    if needle.len() > hay.len() {
        return false;
    }
    let last: usize = hay.len() - needle.len();
    let mut i: usize = 0;
    loop
        invariant
            i <= last,
            last == hay.len() - needle.len(),
            forall|k: int| 0 <= k < i ==> !occurs_at(hay@, needle@, k),
        decreases last - i,
    {
        if matches_at(hay, needle, i) {
            return true;
        }
        if i == last {
            return false;
        }
        i += 1;
    }
}

/// Whether `marker` occurs in the text whose characters are `chars`.
pub fn chars_contain(chars: &Vec<char>, marker: &str) -> (b: bool)
    ensures
        b == has_substring(chars@, marker@),
{
    let m = to_chars(marker);
    contains_chars(chars, &m)
}

/// Whether `needle` occurs in `hay`.
pub fn contains(hay: &str, needle: &str) -> (b: bool)
    ensures
        b == has_substring(hay@, needle@),
{
    let h = to_chars(hay);
    let n = to_chars(needle);
    contains_chars(&h, &n)
}

/// The character that writes the digit `d`.
pub open spec fn digit_char(d: nat) -> char {
    if d == 0 {
        '0'
    } else if d == 1 {
        '1'
    } else if d == 2 {
        '2'
    } else if d == 3 {
        '3'
    } else if d == 4 {
        '4'
    } else if d == 5 {
        '5'
    } else if d == 6 {
        '6'
    } else if d == 7 {
        '7'
    } else if d == 8 {
        '8'
    } else {
        '9'
    }
}

/// The decimal numeral of `n`: most significant digit first, no leading
/// zero, and `"0"` for zero.
pub open spec fn decimal_digits(n: nat) -> Seq<char>
    decreases n,
{
    if n < 10 {
        seq![digit_char(n)]
    } else {
        decimal_digits(n / 10).push(digit_char(n % 10))
    }
}

fn digit_str(d: u32) -> (s: &'static str)
    requires
        d < 10,
    ensures
        s@ == seq![digit_char(d as nat)],
{
    proof {
        reveal_strlit("0");
        reveal_strlit("1");
        reveal_strlit("2");
        reveal_strlit("3");
        reveal_strlit("4");
        reveal_strlit("5");
        reveal_strlit("6");
        reveal_strlit("7");
        reveal_strlit("8");
        reveal_strlit("9");
    }
    if d == 0 {
        "0"
    } else if d == 1 {
        "1"
    } else if d == 2 {
        "2"
    } else if d == 3 {
        "3"
    } else if d == 4 {
        "4"
    } else if d == 5 {
        "5"
    } else if d == 6 {
        "6"
    } else if d == 7 {
        "7"
    } else if d == 8 {
        "8"
    } else {
        "9"
    }
}

/// Renders `n` in decimal.
pub fn decimal(n: u32) -> (s: String)
    ensures
        s@ == decimal_digits(n as nat),
    decreases n,
{
    if n < 10 {
        String::from_str(digit_str(n))
    } else {
        let mut s = decimal(n / 10);
        s.append(digit_str(n % 10));
        s
    }
}

/// `a` followed by `b`.
pub fn join2(a: &str, b: &str) -> (s: String)
    ensures
        s@ == a@ + b@,
{
    let mut s = String::from_str(a);
    s.append(b);
    s
}

/// The number of characters of `s` before its first line feed, or the
/// length of `s` when it holds none.
pub open spec fn line_end(s: Seq<char>) -> int
    decreases s.len(),
{
    if s.len() == 0 || s[0] == '\n' {
        0
    } else {
        1 + line_end(s.drop_first())
    }
}

/// `line` without the carriage return that may end it.
pub open spec fn strip_cr(line: Seq<char>) -> Seq<char> {
    if line.len() > 0 && line.last() == '\r' {
        line.drop_last()
    } else {
        line
    }
}

/// The lines of `s`. A line ends at a line feed; a carriage return directly
/// before that line feed belongs to the line ending. Text after the last
/// line feed is a line of its own, unless it is empty.
pub open spec fn lines_of(s: Seq<char>) -> Seq<Seq<char>>
    decreases s.len(),
{
    let k = line_end(s);
    if s.len() == 0 {
        Seq::empty()
    } else if 0 <= k < s.len() {
        seq![strip_cr(s.take(k))] + lines_of(s.skip(k + 1))
    } else {
        seq![s]
    }
}

/// `line_end` is the first index that holds a line feed.
pub proof fn lemma_line_end(s: Seq<char>, m: int)
    requires
        0 <= m <= s.len(),
        forall|j: int| 0 <= j < m ==> s[j] != '\n',
        m == s.len() || s[m] == '\n',
    ensures
        line_end(s) == m,
    decreases s.len(),
{
    if m > 0 {
        let t = s.drop_first();
        assert forall|j: int| 0 <= j < m - 1 implies t[j] != '\n' by {
            assert(t[j] == s[j + 1]);
        }
        lemma_line_end(t, m - 1);
    }
}

/// `line_end` lies within the text, and where it is not the end of the
/// text it is the place of a line feed.
pub proof fn lemma_line_end_bounds(s: Seq<char>)
    ensures
        0 <= line_end(s) <= s.len(),
        line_end(s) < s.len() ==> s[line_end(s)] == '\n',
    decreases s.len(),
{
    if s.len() > 0 && s[0] != '\n' {
        lemma_line_end_bounds(s.drop_first());
    }
}

/// Splits `text` into its lines.
pub fn split_lines(text: &str) -> (lines: Vec<String>)
    ensures
        lines.deep_view() == lines_of(text@),
{
    let chars = to_chars(text);
    let n = chars.len();
    let mut lines: Vec<String> = Vec::new();
    let mut start: usize = 0;
    assert(text@.skip(0) =~= text@);
    while start < n
        invariant
            start <= n,
            n == chars.len(),
            chars@ == text@,
            lines_of(text@) == lines.deep_view() + lines_of(text@.skip(start as int)),
        decreases n - start,
    {
        let ghost rest = text@.skip(start as int);
        let ghost before = lines.deep_view();
        let mut k: usize = start;
        while k < n && chars[k] != '\n'
            invariant
                start <= k <= n,
                n == chars.len(),
                forall|j: int| start <= j < k ==> chars@[j] != '\n',
            decreases n - k,
        {
            k += 1;
        }
        proof {
            // `k` is where the line that starts at `start` ends.
            assert forall|j: int| 0 <= j < k - start implies rest[j] != '\n' by {
                assert(rest[j] == chars@[start + j]);
            }
            lemma_line_end(rest, k - start);
        }
        if k == n {
            let line = text.substring_char(start, n);
            lines.push(String::from_str(line));
            proof {
                assert(line@ =~= rest);
                assert(lines_of(rest) =~= seq![rest]);
                assert(lines.deep_view() =~= before.push(rest));
                assert(lines.deep_view() + lines_of(text@.skip(n as int)) =~= before + lines_of(
                    rest,
                ));
            }
            start = n;
        } else {
            let end: usize = if k > start && chars[k - 1] == '\r' {
                k - 1
            } else {
                k
            };
            let line = text.substring_char(start, end);
            lines.push(String::from_str(line));
            proof {
                let raw = rest.take(k - start);
                assert(raw =~= text@.subrange(start as int, k as int));
                assert(line@ =~= strip_cr(raw));
                assert(rest.skip(k - start + 1) =~= text@.skip(k + 1));
                assert(lines.deep_view() =~= before.push(strip_cr(raw)));
            }
            start = k + 1;
        }
    }
    lines
}

/// A text free of line feeds and carriage returns: it fits into a line.
pub open spec fn single_line(marker: Seq<char>) -> bool {
    forall|i: int| 0 <= i < marker.len() ==> marker[i] != '\n' && marker[i] != '\r'
}

/// Reading a text line by line loses no marker and invents none: a marker
/// that fits into a line occurs in the text if and only if it occurs in one
/// of its lines.
pub proof fn lemma_marker_in_some_line(text: Seq<char>, marker: Seq<char>)
    requires
        marker.len() > 0,
        single_line(marker),
    ensures
        has_substring(text, marker) <==> exists|k: int|
            0 <= k < lines_of(text).len() && has_substring(#[trigger] lines_of(text)[k], marker),
    decreases text.len(),
{
    let lines = lines_of(text);
    let m = marker.len() as int;
    lemma_line_end_bounds(text);
    let e = line_end(text);
    if text.len() == 0 {
        // Nothing of positive length occurs in the empty text.
    } else if e < text.len() {
        let head = text.take(e);
        let first = strip_cr(head);
        let tail = text.skip(e + 1);
        lemma_marker_in_some_line(tail, marker);
        if has_substring(text, marker) {
            let i = choose|i: int| occurs_at(text, marker, i);
            let window = text.subrange(i, i + m);
            if i <= e < i + m {
                // The occurrence would hold the line feed at `e`.
                assert(marker[e - i] == '\n');
                assert(false);
            }
            if i + m <= e {
                if first.len() < head.len() && i + m == e {
                    // The occurrence would hold the carriage return before `e`.
                    assert(marker[m - 1] == '\r');
                    assert(false);
                }
                assert(first.subrange(i, i + m) =~= window);
                assert(occurs_at(first, marker, i));
                assert(has_substring(lines[0], marker));
            } else {
                assert(tail.subrange(i - e - 1, i - e - 1 + m) =~= window);
                assert(occurs_at(tail, marker, i - e - 1));
                let k = choose|k: int|
                    0 <= k < lines_of(tail).len() && has_substring(
                        #[trigger] lines_of(tail)[k],
                        marker,
                    );
                assert(has_substring(lines[k + 1], marker));
            }
        }
        if exists|k: int| 0 <= k < lines.len() && has_substring(#[trigger] lines[k], marker) {
            let k = choose|k: int| 0 <= k < lines.len() && has_substring(#[trigger] lines[k], marker);
            if k == 0 {
                let i = choose|i: int| occurs_at(first, marker, i);
                assert(text.subrange(i, i + m) =~= first.subrange(i, i + m));
                assert(occurs_at(text, marker, i));
            } else {
                assert(has_substring(lines_of(tail)[k - 1], marker));
                let i = choose|i: int| occurs_at(tail, marker, i);
                assert(text.subrange(i + e + 1, i + e + 1 + m) =~= tail.subrange(i, i + m));
                assert(occurs_at(text, marker, i + e + 1));
            }
        }
    } else {
        assert(lines =~= seq![text]);
        if has_substring(text, marker) {
            assert(has_substring(lines[0], marker));
        }
    }
}

} // verus!
