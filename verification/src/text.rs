//! Text handling for tool output.
//!
//! Everything the recovery engine learns about a disk arrives as text printed
//! by some tool. This module holds the mathematical vocabulary for such text
//! (sequences of characters) together with executable functions that are
//! proved to compute it.

use vstd::prelude::*;
use vstd::string::StringExecFns;

verus! {

// ---------------------------------------------------------------------------
// Conversions between strings and character vectors
// ---------------------------------------------------------------------------
/// Appends one character to the end of a string.
///
/// Trusted: this is `String::push` of the standard library, which is
/// documented to append the given `char` to the end of the string and to do
/// nothing else.
#[verifier::external_body]
fn push_char(s: &mut String, c: char)
    ensures
        final(s)@ == old(s)@.push(c),
{
    s.push(c);
}

/// The characters of a string, in order.
pub fn to_chars(s: &str) -> (v: Vec<char>)
    ensures
        v@ == s@,
{
    let mut v: Vec<char> = Vec::new();
    for c in it: s.chars()
        invariant
            it.seq() == s@,
            v@ == it.seq().take(it.index() as int),
    {
        v.push(c);
    }
    v
}

/// The string made of the given characters, in order.
pub fn from_chars(v: &Vec<char>) -> (s: String)
    ensures
        s@ == v@,
{
    let mut s = String::new();
    let mut i: usize = 0;
    while i < v.len()
        invariant
            i <= v.len(),
            s@ == v@.take(i as int),
        decreases v.len() - i,
    {
        push_char(&mut s, v[i]);
        i = i + 1;
    }
    assert(v@.take(v.len() as int) == v@);
    s
}

/// Two strings joined end to end.
pub fn join2(a: &str, b: &str) -> (s: String)
    ensures
        s@ == a@ + b@,
{
    let mut s = String::from_str(a);
    s.append(b);
    s
}

/// Three strings joined end to end.
pub fn join3(a: &str, b: &str, c: &str) -> (s: String)
    ensures
        s@ == a@ + b@ + c@,
{
    let mut s = String::from_str(a);
    s.append(b);
    s.append(c);
    s
}

/// Whether two strings hold the same characters.
pub fn same_text(a: &str, b: &str) -> (r: bool)
    ensures
        r == (a@ == b@),
{
    let x = String::from_str(a);
    let y = String::from_str(b);
    x == y
}

/// A copy of the characters `v[from..to]`.
pub fn copy_range(v: &Vec<char>, from: usize, to: usize) -> (r: Vec<char>)
    requires
        from <= to <= v.len(),
    ensures
        r@ == v@.subrange(from as int, to as int),
{
    let mut r: Vec<char> = Vec::new();
    let mut i: usize = from;
    while i < to
        invariant
            from <= i <= to <= v.len(),
            r@ == v@.subrange(from as int, i as int),
        decreases to - i,
    {
        r.push(v[i]);
        i = i + 1;
    }
    r
}

/// Whether two character vectors hold the same characters.
pub fn same_chars(a: &Vec<char>, b: &Vec<char>) -> (r: bool)
    ensures
        r == (a@ == b@),
{
    if a.len() != b.len() {
        return false;
    }
    let mut i: usize = 0;
    while i < a.len()
        invariant
            a.len() == b.len(),
            i <= a.len(),
            a@.take(i as int) == b@.take(i as int),
        decreases a.len() - i,
    {
        if a[i] != b[i] {
            return false;
        }
        assert(a@.take(i + 1) == a@.take(i as int).push(a@[i as int]));
        assert(b@.take(i + 1) == b@.take(i as int).push(b@[i as int]));
        i = i + 1;
    }
    assert(a@.take(a.len() as int) == a@);
    assert(b@.take(b.len() as int) == b@);
    true
}

// ---------------------------------------------------------------------------
// Whitespace and trimming
// ---------------------------------------------------------------------------
/// The characters that count as white space when trimming: the Unicode
/// `White_Space` code points.
pub open spec fn is_whitespace(c: char) -> bool {
    let n = c as u32;
    ||| 0x09 <= n <= 0x0d
    ||| n == 0x20
    ||| n == 0x85
    ||| n == 0xa0
    ||| n == 0x1680
    ||| 0x2000 <= n <= 0x200a
    ||| n == 0x2028
    ||| n == 0x2029
    ||| n == 0x202f
    ||| n == 0x205f
    ||| n == 0x3000
}

/// Executable test for [`is_whitespace`].
pub fn is_space(c: char) -> (r: bool)
    ensures
        r == is_whitespace(c),
{
    let n: u32 = c as u32;
    (0x09 <= n && n <= 0x0d) || n == 0x20 || n == 0x85 || n == 0xa0 || n == 0x1680 || (0x2000 <= n
        && n <= 0x200a) || n == 0x2028 || n == 0x2029 || n == 0x202f || n == 0x205f || n == 0x3000
}

/// `s` without its leading white space.
pub open spec fn trim_start(s: Seq<char>) -> Seq<char>
    decreases s.len(),
{
    if s.len() > 0 && is_whitespace(s[0]) {
        trim_start(s.drop_first())
    } else {
        s
    }
}

/// `s` without its trailing white space.
pub open spec fn trim_end(s: Seq<char>) -> Seq<char>
    decreases s.len(),
{
    if s.len() > 0 && is_whitespace(s.last()) {
        trim_end(s.drop_last())
    } else {
        s
    }
}

/// `s` without leading and trailing white space.
pub open spec fn trim(s: Seq<char>) -> Seq<char> {
    trim_end(trim_start(s))
}

/// Executable [`trim`].
pub fn trimmed(v: &Vec<char>) -> (r: Vec<char>)
    ensures
        r@ == trim(v@),
{
    let n: usize = v.len();
    let mut a: usize = 0;
    assert(v@.skip(0) == v@);
    while a < n && is_space(v[a])
        invariant
            n == v.len(),
            a <= n,
            trim_start(v@) == trim_start(v@.skip(a as int)),
        decreases n - a,
    {
        assert(v@.skip(a as int).drop_first() == v@.skip(a + 1));
        a = a + 1;
    }
    let mut b: usize = n;
    assert(v@.skip(a as int) == v@.subrange(a as int, b as int));
    while b > a && is_space(v[b - 1])
        invariant
            n == v.len(),
            a <= b <= n,
            trim_start(v@) == v@.skip(a as int),
            trim_end(v@.skip(a as int)) == trim_end(v@.subrange(a as int, b as int)),
        decreases b,
    {
        assert(v@.subrange(a as int, b as int).drop_last() == v@.subrange(a as int, b - 1));
        b = b - 1;
    }
    copy_range(v, a, b)
}

/// Executable [`trim`] on strings.
pub fn trim_text(s: &str) -> (r: String)
    ensures
        r@ == trim(s@),
{
    let v = to_chars(s);
    let t = trimmed(&v);
    from_chars(&t)
}

// ---------------------------------------------------------------------------
// Searching
// ---------------------------------------------------------------------------
/// `needle` occurs in `hay` starting at position `at`.
pub open spec fn occurs_at(hay: Seq<char>, needle: Seq<char>, at: int) -> bool {
    &&& 0 <= at
    &&& at + needle.len() <= hay.len()
    &&& hay.subrange(at, at + needle.len()) == needle
}

/// `needle` occurs somewhere in `hay`. The empty text occurs in every text.
pub open spec fn contains(hay: Seq<char>, needle: Seq<char>) -> bool {
    exists|at: int| occurs_at(hay, needle, at)
}

/// `s` begins with `prefix`.
pub open spec fn starts_with(s: Seq<char>, prefix: Seq<char>) -> bool {
    occurs_at(s, prefix, 0)
}

/// `s` ends with `suffix`.
pub open spec fn ends_with(s: Seq<char>, suffix: Seq<char>) -> bool {
    occurs_at(s, suffix, s.len() - suffix.len())
}

/// Executable [`occurs_at`].
pub fn holds_at(hay: &Vec<char>, needle: &Vec<char>, at: usize) -> (r: bool)
    ensures
        r == occurs_at(hay@, needle@, at as int),
{
    if needle.len() > hay.len() || at > hay.len() - needle.len() {
        return false;
    }
    let mut j: usize = 0;
    while j < needle.len()
        invariant
            at + needle.len() <= hay.len(),
            j <= needle.len(),
            forall|k: int| 0 <= k < j ==> hay@[at + k] == needle@[k],
        decreases needle.len() - j,
    {
        if hay[at + j] != needle[j] {
            assert(hay@.subrange(at as int, at + needle.len())[j as int] != needle@[j as int]);
            return false;
        }
        j = j + 1;
    }
    assert(hay@.subrange(at as int, at + needle.len()) == needle@);
    true
}

/// Executable [`contains`].
pub fn holds(hay: &Vec<char>, needle: &Vec<char>) -> (r: bool)
    ensures
        r == contains(hay@, needle@),
{
    if needle.len() > hay.len() {
        return false;
    }
    let last: usize = hay.len() - needle.len();
    let mut i: usize = 0;
    while i < last
        invariant
            last == hay.len() - needle.len(),
            i <= last,
            forall|k: int| 0 <= k < i ==> !occurs_at(hay@, needle@, k),
        decreases last - i,
    {
        if holds_at(hay, needle, i) {
            return true;
        }
        i = i + 1;
    }
    holds_at(hay, needle, last)
}

/// Executable [`contains`] on strings.
pub fn text_contains(hay: &str, needle: &str) -> (r: bool)
    ensures
        r == contains(hay@, needle@),
{
    let h = to_chars(hay);
    let n = to_chars(needle);
    holds(&h, &n)
}

/// Executable [`starts_with`].
pub fn begins_with(s: &Vec<char>, prefix: &Vec<char>) -> (r: bool)
    ensures
        r == starts_with(s@, prefix@),
{
    holds_at(s, prefix, 0)
}

/// Executable [`ends_with`].
pub fn finishes_with(s: &Vec<char>, suffix: &Vec<char>) -> (r: bool)
    ensures
        r == ends_with(s@, suffix@),
{
    if suffix.len() > s.len() {
        return false;
    }
    holds_at(s, suffix, s.len() - suffix.len())
}

/// Whether a character vector spells the given string.
pub fn spells(v: &Vec<char>, s: &str) -> (r: bool)
    ensures
        r == (v@ == s@),
{
    let t = to_chars(s);
    same_chars(v, &t)
}

} // verus!

verus! {

// ---------------------------------------------------------------------------
// Letter case
// ---------------------------------------------------------------------------
/// The lower-case form of an ASCII capital letter; every other character
/// unchanged.
pub open spec fn ascii_lower(c: char) -> char {
    if 0x41 <= c as u32 <= 0x5a {
        ((c as u32 + 0x20) as u8) as char
    } else {
        c
    }
}

/// `s` with its ASCII capital letters in lower case.
pub open spec fn ascii_lowercase(s: Seq<char>) -> Seq<char> {
    Seq::new(s.len(), |i: int| ascii_lower(s[i]))
}

/// Executable [`ascii_lowercase`].
pub fn to_ascii_lowercase(v: &Vec<char>) -> (r: Vec<char>)
    ensures
        r@ == ascii_lowercase(v@),
{
    let mut r: Vec<char> = Vec::new();
    let mut i: usize = 0;
    while i < v.len()
        invariant
            i <= v.len(),
            r@.len() == i,
            forall|k: int| 0 <= k < i ==> r@[k] == ascii_lower(v@[k]),
        decreases v.len() - i,
    {
        let c: char = v[i];
        let code: u32 = c as u32;
        if 0x41 <= code && code <= 0x5a {
            let low: u8 = (code + 0x20) as u8;
            r.push(low as char);
        } else {
            r.push(c);
        }
        i = i + 1;
    }
    r
}

/// The lower-case form of a text under the Unicode case mapping.
///
/// This is what `str::to_lowercase` of the standard library returns; the
/// mapping is a table of the Unicode standard and is not restated here.
pub uninterp spec fn lowercase(s: Seq<char>) -> Seq<char>;

/// The lower-case form of `s`.
///
/// Trusted: this is `str::to_lowercase` of the standard library, whose
/// result depends on its argument alone; the contract only names it.
#[verifier::external_body]
pub(crate) fn to_lowercase(s: &str) -> (r: String)
    ensures
        r@ == lowercase(s@),
{
    s.to_lowercase()
}

} // verus!
