//! Counting and trimming over the characters of a string.

use vstd::prelude::*;

verus! {

/// How many of the characters of `s` are the space character.
pub open spec fn spaces_in(s: Seq<char>) -> nat
    decreases s.len(),
{
    if s.len() == 0 {
        0
    } else {
        spaces_in(s.drop_last()) + if s.last() == ' ' {
            1nat
        } else {
            0nat
        }
    }
}

/// A prefix holds no more spaces than the whole.
proof fn lemma_spaces_in_prefix(s: Seq<char>, n: int)
    requires
        0 <= n <= s.len(),
    ensures
        spaces_in(s.take(n)) <= spaces_in(s),
    decreases s.len(),
{
    if n == s.len() {
        assert(s.take(n) == s);
    } else {
        assert(s.drop_last().take(n) == s.take(n));
        lemma_spaces_in_prefix(s.drop_last(), n);
    }
}

/// Counts the spaces in a given string.
pub fn count_spaces(line: &str) -> (count: u32)
    requires
        spaces_in(line@) <= u32::MAX,
    ensures
        count == spaces_in(line@),
{
    let mut count: u32 = 0;
    for c in it: line.chars()
        invariant
            it.seq() == line@,
            count == spaces_in(line@.take(it.index() as int)),
            spaces_in(line@) <= u32::MAX,
    {
        proof {
            let i = it.index() as int;
            assert(line@.take(i + 1).drop_last() == line@.take(i));
            lemma_spaces_in_prefix(line@, i + 1);
        }
        if c == ' ' {
            count += 1;
        }
    }
    assert(line@.take(line@.len() as int) == line@);
    count
}

/// Whether `c` is white space: one of the characters that Unicode marks as
/// `White_Space`, the line endings among them.
pub open spec fn white_space(c: char) -> bool {
    ||| '\u{9}' <= c <= '\u{d}'
    ||| c == ' '
    ||| c == '\u{85}'
    ||| c == '\u{a0}'
    ||| c == '\u{1680}'
    ||| '\u{2000}' <= c <= '\u{200a}'
    ||| c == '\u{2028}'
    ||| c == '\u{2029}'
    ||| c == '\u{202f}'
    ||| c == '\u{205f}'
    ||| c == '\u{3000}'
}

/// Whether `c` is white space.
pub fn is_white_space(c: char) -> (b: bool)
    ensures
        b == white_space(c),
{
    ('\u{9}' <= c && c <= '\u{d}') || c == ' ' || c == '\u{85}' || c == '\u{a0}' || c
        == '\u{1680}' || ('\u{2000}' <= c && c <= '\u{200a}') || c == '\u{2028}' || c
        == '\u{2029}' || c == '\u{202f}' || c == '\u{205f}' || c == '\u{3000}'
}

/// `s` without the white space at its end.
pub open spec fn trimmed_end(s: Seq<char>) -> Seq<char>
    decreases s.len(),
{
    if s.len() > 0 && white_space(s.last()) {
        trimmed_end(s.drop_last())
    } else {
        s
    }
}

/// `s` without the white space at its start.
pub open spec fn trimmed_start(s: Seq<char>) -> Seq<char>
    decreases s.len(),
{
    if s.len() > 0 && white_space(s.first()) {
        trimmed_start(s.drop_first())
    } else {
        s
    }
}

/// `s` without the white space at its start and at its end.
pub open spec fn trimmed(s: Seq<char>) -> Seq<char> {
    trimmed_start(trimmed_end(s))
}

/// Cutting `s` behind its last character that is not white space trims its end.
proof fn lemma_trimmed_end_is_prefix(s: Seq<char>, end: int)
    requires
        0 <= end <= s.len(),
        end > 0 ==> !white_space(s[end - 1]),
        forall|i: int| end <= i < s.len() ==> white_space(s[i]),
    ensures
        trimmed_end(s) == s.take(end),
    decreases s.len(),
{
    if end == s.len() {
        assert(s.take(end) == s);
    } else {
        assert(s.drop_last().take(end) == s.take(end));
        lemma_trimmed_end_is_prefix(s.drop_last(), end);
    }
}

/// Cutting `s` before its first character that is not white space trims its
/// start.
proof fn lemma_trimmed_start_is_suffix(s: Seq<char>, start: int)
    requires
        0 <= start <= s.len(),
        start < s.len() ==> !white_space(s[start]),
        forall|i: int| 0 <= i < start ==> white_space(s[i]),
    ensures
        trimmed_start(s) == s.skip(start),
    decreases s.len(),
{
    if start == 0 {
        assert(s.skip(0) == s);
    } else {
        assert(s.drop_first().skip(start - 1) == s.skip(start));
        lemma_trimmed_start_is_suffix(s.drop_first(), start - 1);
    }
}

/// The part of `s` that is left when the white space at its end is removed.
pub fn trim_end<'a>(s: &'a str) -> (r: &'a str)
    ensures
        r@ == trimmed_end(s@),
{
    let len = s.unicode_len();
    let mut seen: usize = 0;
    let mut end: usize = 0;
    for c in it: s.chars()
        invariant
            it.seq() == s@,
            len == s@.len(),
            seen == it.index(),
            end <= seen,
            end > 0 ==> !white_space(s@[end - 1]),
            forall|i: int| end <= i < seen ==> white_space(s@[i]),
    {
        seen += 1;
        if !is_white_space(c) {
            end = seen;
        }
    }
    proof {
        lemma_trimmed_end_is_prefix(s@, end as int);
    }
    s.substring_char(0, end)
}

/// The part of `s` that is left when the white space at its start is removed.
fn trim_start<'a>(s: &'a str) -> (r: &'a str)
    ensures
        r@ == trimmed_start(s@),
{
    let len = s.unicode_len();
    let mut start: usize = 0;
    let mut leading = true;
    for c in it: s.chars()
        invariant
            it.seq() == s@,
            len == s@.len(),
            start <= it.index(),
            leading ==> start == it.index(),
            !leading ==> start < s@.len() && !white_space(s@[start as int]),
            forall|i: int| 0 <= i < start ==> white_space(s@[i]),
    {
        if leading {
            if is_white_space(c) {
                start += 1;
            } else {
                leading = false;
            }
        }
    }
    proof {
        lemma_trimmed_start_is_suffix(s@, start as int);
    }
    s.substring_char(start, len)
}

/// The part of `s` that is left when the white space at both of its ends is
/// removed.
pub fn trim<'a>(s: &'a str) -> (r: &'a str)
    ensures
        r@ == trimmed(s@),
{
    trim_start(trim_end(s))
}

} // verus!
