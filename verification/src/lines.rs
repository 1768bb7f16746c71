//! Splitting text into lines, fields and words.

use crate::text::{copy_range, holds_at, starts_with};
use vstd::prelude::*;

verus! {

/// The views of a vector of character vectors.
pub open spec fn texts(v: Seq<Vec<char>>) -> Seq<Seq<char>> {
    Seq::new(v.len(), |i: int| v[i]@)
}

/// The views of a vector of strings.
pub open spec fn strings(v: Seq<String>) -> Seq<Seq<char>> {
    Seq::new(v.len(), |i: int| v[i]@)
}

/// Position of the first `c` in `s`, or `s.len()` where there is none.
pub open spec fn first_index(s: Seq<char>, c: char) -> int
    decreases s.len(),
{
    if s.len() == 0 {
        0
    } else if s[0] == c {
        0
    } else {
        1 + first_index(s.drop_first(), c)
    }
}

/// What [`first_index`] finds: nothing before it is `c`, and it is `c`
/// unless the end was reached.
pub proof fn lemma_first_index(s: Seq<char>, c: char)
    ensures
        0 <= first_index(s, c) <= s.len(),
        first_index(s, c) < s.len() ==> s[first_index(s, c)] == c,
        forall|j: int| 0 <= j < first_index(s, c) ==> s[j] != c,
    decreases s.len(),
{
    if s.len() > 0 && s[0] != c {
        let t = s.drop_first();
        lemma_first_index(t, c);
        assert forall|j: int| 0 <= j < first_index(s, c) implies s[j] != c by {
            if j > 0 {
                assert(s[j] == t[j - 1]);
            }
        }
    }
}

/// A position with no `c` before it, and `c` at it or the end of `s`, is the
/// first index of `c`.
pub proof fn lemma_first_index_is(s: Seq<char>, c: char, k: int)
    requires
        0 <= k <= s.len(),
        forall|j: int| 0 <= j < k ==> s[j] != c,
        k < s.len() ==> s[k] == c,
    ensures
        first_index(s, c) == k,
{
    lemma_first_index(s, c);
}

/// The pieces of `s` between occurrences of `sep`. A text without `sep` is
/// one piece; two adjacent separators enclose an empty piece.
pub open spec fn split(s: Seq<char>, sep: char) -> Seq<Seq<char>>
    decreases s.len(),
{
    let i = first_index(s, sep);
    if i < 0 || i >= s.len() {
        seq![s]
    } else {
        seq![s.take(i)] + split(s.skip(i + 1), sep)
    }
}

/// Executable [`split`].
pub fn split_on(v: &Vec<char>, sep: char) -> (out: Vec<Vec<char>>)
    ensures
        texts(out@) == split(v@, sep),
{
    let n: usize = v.len();
    let mut out: Vec<Vec<char>> = Vec::new();
    let mut start: usize = 0;
    let mut i: usize = 0;
    assert(v@.skip(0) == v@);
    assert(texts(out@) + split(v@, sep) == split(v@, sep));
    while i < n
        invariant
            n == v.len(),
            start <= i <= n,
            forall|j: int| start <= j < i ==> v@[j] != sep,
            split(v@, sep) == texts(out@) + split(v@.skip(start as int), sep),
        decreases n - i,
    {
        if v[i] == sep {
            let piece = copy_range(v, start, i);
            proof {
                let rest = v@.skip(start as int);
                lemma_first_index_is(rest, sep, i - start);
                assert(rest.take(i - start) == v@.subrange(start as int, i as int));
                assert(rest.skip(i - start + 1) == v@.skip(i + 1));
                assert(texts(out@.push(piece)) == texts(out@).push(piece@));
                assert(texts(out@) + (seq![piece@] + split(v@.skip(i + 1), sep)) == texts(
                    out@,
                ).push(piece@) + split(v@.skip(i + 1), sep));
            }
            out.push(piece);
            start = i + 1;
        }
        i = i + 1;
    }
    let piece = copy_range(v, start, n);
    proof {
        let rest = v@.skip(start as int);
        lemma_first_index_is(rest, sep, n - start);
        assert(rest == v@.subrange(start as int, n as int));
        assert(texts(out@.push(piece)) == texts(out@).push(piece@));
        assert(texts(out@) + seq![piece@] == texts(out@).push(piece@));
    }
    out.push(piece);
    out
}

/// `s` without one trailing carriage return.
pub open spec fn strip_cr(s: Seq<char>) -> Seq<char> {
    if s.len() > 0 && s.last() == '\r' {
        s.drop_last()
    } else {
        s
    }
}

/// The lines of `s`. A line ends at a line feed, or at a carriage return
/// directly followed by one; the terminator is not part of the line. Text
/// after the last line feed is a line of its own unless it is empty.
pub open spec fn lines(s: Seq<char>) -> Seq<Seq<char>>
    decreases s.len(),
{
    if s.len() == 0 {
        seq![]
    } else {
        let i = first_index(s, '\n');
        if i < 0 || i >= s.len() {
            seq![s]
        } else {
            seq![strip_cr(s.take(i))] + lines(s.skip(i + 1))
        }
    }
}

/// Executable [`lines`].
pub fn split_lines(v: &Vec<char>) -> (out: Vec<Vec<char>>)
    ensures
        texts(out@) == lines(v@),
{
    let n: usize = v.len();
    let mut out: Vec<Vec<char>> = Vec::new();
    let mut start: usize = 0;
    let mut i: usize = 0;
    assert(v@.skip(0) == v@);
    assert(texts(out@) + lines(v@) == lines(v@));
    while i < n
        invariant
            n == v.len(),
            start <= i <= n,
            forall|j: int| start <= j < i ==> v@[j] != '\n',
            lines(v@) == texts(out@) + lines(v@.skip(start as int)),
        decreases n - i,
    {
        if v[i] == '\n' {
            let end: usize = if i > start && v[i - 1] == '\r' {
                i - 1
            } else {
                i
            };
            let piece = copy_range(v, start, end);
            proof {
                let rest = v@.skip(start as int);
                lemma_first_index_is(rest, '\n', i - start);
                assert(rest.take(i - start) == v@.subrange(start as int, i as int));
                assert(strip_cr(v@.subrange(start as int, i as int)) == piece@);
                assert(rest.skip(i - start + 1) == v@.skip(i + 1));
                assert(texts(out@.push(piece)) == texts(out@).push(piece@));
                assert(texts(out@) + (seq![piece@] + lines(v@.skip(i + 1))) == texts(out@).push(
                    piece@,
                ) + lines(v@.skip(i + 1)));
            }
            out.push(piece);
            start = i + 1;
        }
        i = i + 1;
    }
    if start < n {
        let piece = copy_range(v, start, n);
        proof {
            let rest = v@.skip(start as int);
            lemma_first_index_is(rest, '\n', n - start);
            assert(rest == v@.subrange(start as int, n as int));
            assert(texts(out@.push(piece)) == texts(out@).push(piece@));
            assert(texts(out@) + seq![piece@] == texts(out@).push(piece@));
        }
        out.push(piece);
    } else {
        assert(texts(out@) + Seq::<Seq<char>>::empty() == texts(out@));
    }
    out
}

/// The non-empty members of `pieces`, in order.
pub open spec fn non_empty(pieces: Seq<Seq<char>>) -> Seq<Seq<char>>
    decreases pieces.len(),
{
    if pieces.len() == 0 {
        seq![]
    } else if pieces.last().len() == 0 {
        non_empty(pieces.drop_last())
    } else {
        non_empty(pieces.drop_last()).push(pieces.last())
    }
}

/// The words of a line: its pieces between single spaces, without the empty
/// ones that runs of spaces leave.
pub open spec fn words(s: Seq<char>) -> Seq<Seq<char>> {
    non_empty(split(s, ' '))
}

/// Executable [`words`].
pub fn split_words(v: &Vec<char>) -> (out: Vec<Vec<char>>)
    ensures
        texts(out@) == words(v@),
{
    let pieces = split_on(v, ' ');
    let mut out: Vec<Vec<char>> = Vec::new();
    let mut i: usize = 0;
    assert(texts(pieces@).take(0) == Seq::<Seq<char>>::empty());
    while i < pieces.len()
        invariant
            i <= pieces.len(),
            texts(pieces@) == split(v@, ' '),
            texts(out@) == non_empty(texts(pieces@).take(i as int)),
        decreases pieces.len() - i,
    {
        proof {
            let upto = texts(pieces@).take(i + 1);
            assert(upto.drop_last() == texts(pieces@).take(i as int));
            assert(upto.last() == pieces@[i as int]@);
        }
        if pieces[i].len() > 0 {
            let piece = pieces[i].clone();
            assert(piece@ == pieces@[i as int]@);
            assert(texts(out@.push(piece)) == texts(out@).push(piece@));
            out.push(piece);
        }
        i = i + 1;
    }
    assert(texts(pieces@).take(pieces.len() as int) == texts(pieces@));
    out
}

/// `s` without any occurrence of `c`.
pub open spec fn without(s: Seq<char>, c: char) -> Seq<char>
    decreases s.len(),
{
    if s.len() == 0 {
        seq![]
    } else if s.last() == c {
        without(s.drop_last(), c)
    } else {
        without(s.drop_last(), c).push(s.last())
    }
}

/// Executable [`without`].
pub fn remove_char(v: &Vec<char>, c: char) -> (out: Vec<char>)
    ensures
        out@ == without(v@, c),
{
    let mut out: Vec<char> = Vec::new();
    let mut i: usize = 0;
    assert(v@.take(0) == Seq::<char>::empty());
    while i < v.len()
        invariant
            i <= v.len(),
            out@ == without(v@.take(i as int), c),
        decreases v.len() - i,
    {
        proof {
            assert(v@.take(i + 1).drop_last() == v@.take(i as int));
        }
        if v[i] != c {
            out.push(v[i]);
        }
        i = i + 1;
    }
    assert(v@.take(v.len() as int) == v@);
    out
}

/// `s` without the run of `c` at its start.
pub open spec fn trim_start_char(s: Seq<char>, c: char) -> Seq<char>
    decreases s.len(),
{
    if s.len() > 0 && s[0] == c {
        trim_start_char(s.drop_first(), c)
    } else {
        s
    }
}

/// `s` without the run of `c` at its end.
pub open spec fn trim_end_char(s: Seq<char>, c: char) -> Seq<char>
    decreases s.len(),
{
    if s.len() > 0 && s.last() == c {
        trim_end_char(s.drop_last(), c)
    } else {
        s
    }
}

/// `s` without the runs of `c` at both of its ends.
pub open spec fn trim_char(s: Seq<char>, c: char) -> Seq<char> {
    trim_end_char(trim_start_char(s, c), c)
}

/// Executable [`trim_end_char`].
pub fn strip_end_char(v: &Vec<char>, c: char) -> (r: Vec<char>)
    ensures
        r@ == trim_end_char(v@, c),
{
    let mut b: usize = v.len();
    assert(v@.subrange(0, b as int) == v@);
    while b > 0 && v[b - 1] == c
        invariant
            b <= v.len(),
            trim_end_char(v@, c) == trim_end_char(v@.subrange(0, b as int), c),
        decreases b,
    {
        assert(v@.subrange(0, b as int).drop_last() == v@.subrange(0, b - 1));
        b = b - 1;
    }
    copy_range(v, 0, b)
}

/// Executable [`trim_start_char`].
pub fn strip_start_char(v: &Vec<char>, c: char) -> (r: Vec<char>)
    ensures
        r@ == trim_start_char(v@, c),
{
    let n: usize = v.len();
    let mut a: usize = 0;
    assert(v@.skip(0) == v@);
    while a < n && v[a] == c
        invariant
            n == v.len(),
            a <= n,
            trim_start_char(v@, c) == trim_start_char(v@.skip(a as int), c),
        decreases n - a,
    {
        assert(v@.skip(a as int).drop_first() == v@.skip(a + 1));
        a = a + 1;
    }
    assert(v@.skip(a as int) == v@.subrange(a as int, n as int));
    copy_range(v, a, n)
}

/// Executable [`trim_char`].
pub fn strip_char(v: &Vec<char>, c: char) -> (r: Vec<char>)
    ensures
        r@ == trim_char(v@, c),
{
    let t = strip_start_char(v, c);
    strip_end_char(&t, c)
}

/// `s` after every leading repetition of `prefix` has been removed.
pub open spec fn trim_start_text(s: Seq<char>, prefix: Seq<char>) -> Seq<char>
    decreases s.len(),
{
    if prefix.len() > 0 && starts_with(s, prefix) {
        trim_start_text(s.skip(prefix.len() as int), prefix)
    } else {
        s
    }
}

/// Executable [`trim_start_text`].
pub fn strip_start_text(v: &Vec<char>, prefix: &Vec<char>) -> (r: Vec<char>)
    ensures
        r@ == trim_start_text(v@, prefix@),
{
    let n: usize = v.len();
    let m: usize = prefix.len();
    if m == 0 {
        assert(v@.subrange(0, n as int) == v@);
        return copy_range(v, 0, n);
    }
    let mut a: usize = 0;
    assert(v@.skip(0) == v@);
    while a <= n && holds_at(v, prefix, a)
        invariant
            n == v.len(),
            m == prefix.len(),
            m > 0,
            a <= n,
            trim_start_text(v@, prefix@) == trim_start_text(v@.skip(a as int), prefix@),
        decreases n - a,
    {
        proof {
            let rest = v@.skip(a as int);
            assert(rest.subrange(0, m as int) == v@.subrange(a as int, a + m));
            assert(rest.skip(m as int) == v@.skip(a + m));
        }
        a = a + m;
    }
    proof {
        let rest = v@.skip(a as int);
        if starts_with(rest, prefix@) {
            assert(rest.subrange(0, m as int) == v@.subrange(a as int, a + m));
        }
        assert(rest == v@.subrange(a as int, n as int));
    }
    copy_range(v, a, n)
}

/// `s` without the occurrences of `pattern`, found from left to right.
/// An empty pattern occurs nowhere.
pub open spec fn without_text(s: Seq<char>, pattern: Seq<char>) -> Seq<char>
    decreases s.len(),
{
    if s.len() == 0 {
        s
    } else if pattern.len() > 0 && starts_with(s, pattern) {
        without_text(s.skip(pattern.len() as int), pattern)
    } else {
        seq![s[0]] + without_text(s.drop_first(), pattern)
    }
}

/// Executable [`without_text`].
pub fn remove_text(v: &Vec<char>, pattern: &Vec<char>) -> (out: Vec<char>)
    ensures
        out@ == without_text(v@, pattern@),
{
    let n: usize = v.len();
    let m: usize = pattern.len();
    let mut out: Vec<char> = Vec::new();
    let mut i: usize = 0;
    assert(v@.skip(0) == v@);
    assert(out@ + without_text(v@, pattern@) == without_text(v@, pattern@));
    while i < n
        invariant
            n == v.len(),
            m == pattern.len(),
            i <= n,
            without_text(v@, pattern@) == out@ + without_text(v@.skip(i as int), pattern@),
        decreases n - i,
    {
        let ghost rest = v@.skip(i as int);
        if m > 0 && holds_at(v, pattern, i) {
            proof {
                assert(rest.subrange(0, m as int) == v@.subrange(i as int, i + m));
                assert(rest.skip(m as int) == v@.skip(i + m));
            }
            i = i + m;
        } else {
            proof {
                if m > 0 && starts_with(rest, pattern@) {
                    assert(rest.subrange(0, m as int) == v@.subrange(i as int, i + m));
                }
                assert(rest.drop_first() == v@.skip(i + 1));
                assert(out@ + (seq![rest[0]] + without_text(v@.skip(i + 1), pattern@)) == out@.push(
                    v@[i as int],
                ) + without_text(v@.skip(i + 1), pattern@));
            }
            out.push(v[i]);
            i = i + 1;
        }
    }
    assert(out@ + Seq::<char>::empty() == out@);
    out
}

} // verus!
