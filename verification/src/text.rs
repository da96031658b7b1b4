//! Character-level text operations with exact contracts.
//!
//! Strings are read as sequences of characters (`Seq<char>`); the functions
//! below work on `Vec<char>` and convert at the edges.

use vstd::prelude::*;

verus! {

/// `String::push` appends one character to the string.
pub assume_specification[ String::push ](s: &mut String, c: char)
    ensures
        final(s)@ == old(s)@.push(c),
;

/// The characters of `s`, in order.
pub fn chars_of(s: &str) -> (v: Vec<char>)
    ensures
        v@ == s@,
{
    let mut v: Vec<char> = Vec::new();
    for c in it: s.chars()
        invariant
            v@ == it.seq().take(it.index() as int),
            it.seq() == s@,
    {
        v.push(c);
    }
    v
}

/// The string made of the characters of `v`, in order.
pub fn text_of(v: &Vec<char>) -> (s: String)
    ensures
        s@ == v@,
{
    let mut s = String::new();
    let mut i: usize = 0;
    while i < v.len()
        invariant
            i <= v.len(),
            s@ == v@.take(i as int),
        decreases v.len() - i,
    {
        s.push(v[i]);
        i += 1;
    }
    s
}

/// Appends the characters of `tail` to `out`.
pub fn push_all(out: &mut Vec<char>, tail: &Vec<char>)
    ensures
        final(out)@ == old(out)@ + tail@,
{
    let mut i: usize = 0;
    while i < tail.len()
        invariant
            i <= tail.len(),
            out@ == old(out)@ + tail@.take(i as int),
        decreases tail.len() - i,
    {
        out.push(tail[i]);
        i += 1;
    }
}

/// Appends the characters of the string slice `tail` to `out`.
pub fn push_str(out: &mut Vec<char>, tail: &str)
    ensures
        final(out)@ == old(out)@ + tail@,
{
    let t = chars_of(tail);
    push_all(out, &t);
}

/// `needle` stands in `hay` at position `i`.
pub open spec fn occurs_at(hay: Seq<char>, needle: Seq<char>, i: int) -> bool {
    0 <= i && i + needle.len() <= hay.len() && hay.subrange(i, i + needle.len()) == needle
}

/// `needle` stands somewhere in `hay`.
pub open spec fn contains_text(hay: Seq<char>, needle: Seq<char>) -> bool {
    exists|i: int| occurs_at(hay, needle, i)
}

/// `c` is somewhere in `hay`.
pub open spec fn contains_char(hay: Seq<char>, c: char) -> bool {
    exists|i: int| 0 <= i < hay.len() && hay[i] == c
}

/// `hay` begins with `prefix`.
pub open spec fn starts_with(hay: Seq<char>, prefix: Seq<char>) -> bool {
    occurs_at(hay, prefix, 0)
}

/// `hay` ends with `suffix`.
pub open spec fn ends_with(hay: Seq<char>, suffix: Seq<char>) -> bool {
    occurs_at(hay, suffix, hay.len() - suffix.len())
}

/// Whether `needle` stands in `hay` at position `i`.
pub fn has_at(hay: &Vec<char>, needle: &Vec<char>, i: usize) -> (r: bool)
    ensures
        r == occurs_at(hay@, needle@, i as int),
{
    if i > hay.len() || needle.len() > hay.len() - i {
        return false;
    }
    let mut k: usize = 0;
    while k < needle.len()
        invariant
            k <= needle.len(),
            i + needle.len() <= hay.len(),
            forall|j: int| 0 <= j < k ==> hay@[i + j] == needle@[j],
        decreases needle.len() - k,
    {
        if hay[i + k] != needle[k] {
            proof {
                let sub = hay@.subrange(i as int, i + needle.len());
                assert(sub[k as int] == hay@[i + k]);
            }
            return false;
        }
        k += 1;
    }
    assert(hay@.subrange(i as int, i + needle.len()) =~= needle@);
    true
}

/// The first position at which `needle` stands in `hay`, from `from` on.
pub fn find_from(hay: &Vec<char>, needle: &Vec<char>, from: usize) -> (r: Option<usize>)
    ensures
        match r {
            Some(i) => from <= i && occurs_at(hay@, needle@, i as int) && forall|j: int|
                from <= j < i ==> !occurs_at(hay@, needle@, j),
            None => forall|j: int| from <= j ==> !occurs_at(hay@, needle@, j),
        },
{
    if from > hay.len() {
        return None;
    }
    let mut i: usize = from;
    while i < hay.len()
        invariant
            from <= i <= hay.len(),
            forall|j: int| from <= j < i ==> !occurs_at(hay@, needle@, j),
        decreases hay.len() - i,
    {
        if has_at(hay, needle, i) {
            return Some(i);
        }
        i += 1;
    }
    if has_at(hay, needle, i) {
        Some(i)
    } else {
        None
    }
}

/// Whether `needle` stands somewhere in `hay`.
pub fn contains(hay: &Vec<char>, needle: &Vec<char>) -> (r: bool)
    ensures
        r == contains_text(hay@, needle@),
{
    find_from(hay, needle, 0).is_some()
}

/// Whether the literal `needle` stands somewhere in `hay`.
pub fn contains_str(hay: &Vec<char>, needle: &str) -> (r: bool)
    ensures
        r == contains_text(hay@, needle@),
{
    let n = chars_of(needle);
    contains(hay, &n)
}

/// Whether `c` is somewhere in `hay`.
pub fn has_char(hay: &Vec<char>, c: char) -> (r: bool)
    ensures
        r == contains_char(hay@, c),
{
    let mut i: usize = 0;
    while i < hay.len()
        invariant
            i <= hay.len(),
            forall|j: int| 0 <= j < i ==> hay@[j] != c,
        decreases hay.len() - i,
    {
        if hay[i] == c {
            return true;
        }
        i += 1;
    }
    false
}

/// Whether `hay` begins with `prefix`.
pub fn begins_with(hay: &Vec<char>, prefix: &str) -> (r: bool)
    ensures
        r == starts_with(hay@, prefix@),
{
    let p = chars_of(prefix);
    has_at(hay, &p, 0)
}

/// Whether `hay` ends with `suffix`.
pub fn finishes_with(hay: &Vec<char>, suffix: &str) -> (r: bool)
    ensures
        r == ends_with(hay@, suffix@),
{
    let s = chars_of(suffix);
    if s.len() > hay.len() {
        return false;
    }
    has_at(hay, &s, hay.len() - s.len())
}

/// Whether two texts hold the same characters.
pub fn same_text(a: &Vec<char>, b: &Vec<char>) -> (r: bool)
    ensures
        r == (a@ == b@),
{
    if a.len() != b.len() {
        return false;
    }
    let r = has_at(a, b, 0);
    assert(a@.subrange(0, a@.len() as int) =~= a@);
    r
}

/// Whether `a` holds exactly the characters of the literal `b`.
pub fn is_str(a: &Vec<char>, b: &str) -> (r: bool)
    ensures
        r == (a@ == b@),
{
    let bv = chars_of(b);
    same_text(a, &bv)
}

/// Whether two string slices hold the same characters.
pub fn str_eq(a: &str, b: &str) -> (r: bool)
    ensures
        r == (a@ == b@),
{
    let av = chars_of(a);
    let bv = chars_of(b);
    same_text(&av, &bv)
}

/// The lowercase form of a text, as Unicode defines it.
pub uninterp spec fn lowercase(s: Seq<char>) -> Seq<char>;

/// `str::to_lowercase` returns the lowercase equivalent of the string slice
/// as a new string; the result depends on the characters alone.
pub assume_specification[ str::to_lowercase ](s: &str) -> (r: String)
    ensures
        r@ == lowercase(s@),
;

/// Whether a character has the Unicode property White_Space: the
/// characters from tab to carriage return, the space, the next line
/// control, the no-break space, the ogham space mark, the spaces from en
/// quad to hair space, the line and the paragraph separator, the narrow
/// no-break space, the medium mathematical space and the ideographic space.
pub open spec fn is_white(c: char) -> bool {
    ('\u{9}' <= c && c <= '\u{d}') || c == ' ' || c == '\u{85}' || c == '\u{a0}' || c
        == '\u{1680}' || ('\u{2000}' <= c && c <= '\u{200a}') || c == '\u{2028}' || c
        == '\u{2029}' || c == '\u{202f}' || c == '\u{205f}' || c == '\u{3000}'
}

/// `char::is_whitespace` tells whether the character has the property
/// White_Space, as the Unicode Character Database gives it.
pub assume_specification[ char::is_whitespace ](c: char) -> (r: bool)
    ensures
        r == is_white(c),
;

/// The text that a sequence of bytes stands for when it is read as UTF-8,
/// each invalid sequence replaced by U+FFFD.
pub uninterp spec fn utf8_lossy(bytes: Seq<u8>) -> Seq<char>;

/// `String::from_utf8_lossy` converts bytes to text and replaces what is not
/// valid UTF-8 by the replacement character; the result depends on the bytes
/// alone.
#[verifier::external_body]
pub(crate) fn text_from_utf8_lossy(bytes: &[u8]) -> (r: String)
    ensures
        r@ == utf8_lossy(bytes@),
{
    String::from_utf8_lossy(bytes).into_owned()
}

/// Every character of `s` is white space.
pub open spec fn blank(s: Seq<char>) -> bool {
    forall|i: int| 0 <= i < s.len() ==> is_white(#[trigger] s[i])
}

/// The number of white-space characters that `s` begins with.
pub open spec fn leading_white(s: Seq<char>) -> nat
    decreases s.len(),
{
    if s.len() > 0 && is_white(s[0]) {
        1 + leading_white(s.drop_first())
    } else {
        0
    }
}

/// The number of white-space characters that `s` ends with.
pub open spec fn trailing_white(s: Seq<char>) -> nat
    decreases s.len(),
{
    if s.len() > 0 && is_white(s.last()) {
        1 + trailing_white(s.drop_last())
    } else {
        0
    }
}

/// `s` without the white space at its beginning and its end.
pub open spec fn trimmed(s: Seq<char>) -> Seq<char> {
    let start = leading_white(s) as int;
    if start == s.len() {
        Seq::<char>::empty()
    } else {
        s.subrange(start, s.len() - trailing_white(s))
    }
}

/// The leading white space of `s` ends where its first other character stands.
pub proof fn lemma_leading_white(s: Seq<char>, k: int)
    requires
        0 <= k <= s.len(),
        forall|i: int| 0 <= i < k ==> is_white(#[trigger] s[i]),
        k < s.len() ==> !is_white(s[k]),
    ensures
        leading_white(s) == k,
    decreases k,
{
    if k > 0 {
        let t = s.drop_first();
        assert forall|i: int| 0 <= i < k - 1 implies is_white(#[trigger] t[i]) by {
            assert(t[i] == s[i + 1]);
        }
        lemma_leading_white(t, k - 1);
    }
}

/// The trailing white space of `s` begins behind its last other character.
pub proof fn lemma_trailing_white(s: Seq<char>, k: int)
    requires
        0 <= k <= s.len(),
        forall|i: int| s.len() - k <= i < s.len() ==> is_white(#[trigger] s[i]),
        k < s.len() ==> !is_white(s[s.len() - 1 - k]),
    ensures
        trailing_white(s) == k,
    decreases k,
{
    if k > 0 {
        let t = s.drop_last();
        assert forall|i: int| t.len() - (k - 1) <= i < t.len() implies is_white(
            #[trigger] t[i],
        ) by {
            assert(t[i] == s[i]);
        }
        lemma_trailing_white(t, k - 1);
    }
}

/// What `leading_white` counts: white space only, and it stops at the first
/// other character.
pub proof fn lemma_leading_upto(s: Seq<char>)
    ensures
        leading_white(s) <= s.len(),
        forall|i: int| 0 <= i < leading_white(s) ==> is_white(#[trigger] s[i]),
        leading_white(s) < s.len() ==> !is_white(s[leading_white(s) as int]),
    decreases s.len(),
{
    if s.len() > 0 && is_white(s[0]) {
        let t = s.drop_first();
        lemma_leading_upto(t);
        assert forall|i: int| 0 <= i < leading_white(s) implies is_white(#[trigger] s[i]) by {
            if i > 0 {
                assert(s[i] == t[i - 1]);
            }
        }
        if leading_white(s) < s.len() {
            assert(s[leading_white(s) as int] == t[leading_white(t) as int]);
        }
    }
}

/// What `trailing_white` counts: white space only, and it stops at the last
/// other character.
pub proof fn lemma_trailing_upto(s: Seq<char>)
    ensures
        trailing_white(s) <= s.len(),
        forall|i: int| s.len() - trailing_white(s) <= i < s.len() ==> is_white(#[trigger] s[i]),
        trailing_white(s) < s.len() ==> !is_white(s[s.len() - 1 - trailing_white(s)]),
    decreases s.len(),
{
    if s.len() > 0 && is_white(s.last()) {
        let t = s.drop_last();
        lemma_trailing_upto(t);
        assert forall|i: int| s.len() - trailing_white(s) <= i < s.len() implies is_white(
            #[trigger] s[i],
        ) by {
            if i < s.len() - 1 {
                assert(s[i] == t[i]);
            }
        }
        if trailing_white(s) < s.len() {
            assert(s[s.len() - 1 - trailing_white(s)] == t[t.len() - 1 - trailing_white(t)]);
        }
    }
}

/// Whether every character of `s` is white space.
pub fn is_blank(s: &Vec<char>) -> (r: bool)
    ensures
        r == blank(s@),
{
    let mut i: usize = 0;
    while i < s.len()
        invariant
            i <= s.len(),
            forall|j: int| 0 <= j < i ==> is_white(#[trigger] s@[j]),
        decreases s.len() - i,
    {
        if !s[i].is_whitespace() {
            return false;
        }
        i += 1;
    }
    true
}

/// Whether every character of the string slice `s` is white space.
pub fn is_blank_str(s: &str) -> (r: bool)
    ensures
        r == blank(s@),
{
    let v = chars_of(s);
    is_blank(&v)
}

/// `s` without the white space at its beginning and its end.
pub fn trim(s: &Vec<char>) -> (r: Vec<char>)
    ensures
        r@ == trimmed(s@),
{
    let mut start: usize = 0;
    while start < s.len() && s[start].is_whitespace()
        invariant
            start <= s.len(),
            forall|j: int| 0 <= j < start ==> is_white(#[trigger] s@[j]),
        decreases s.len() - start,
    {
        start += 1;
    }
    proof {
        lemma_leading_white(s@, start as int);
    }
    let mut out: Vec<char> = Vec::new();
    if start == s.len() {
        return out;
    }
    let mut end: usize = s.len();
    while end > start && s[end - 1].is_whitespace()
        invariant
            start <= end <= s.len(),
            start < s.len(),
            !is_white(s@[start as int]),
            forall|j: int| end <= j < s.len() ==> is_white(#[trigger] s@[j]),
        decreases end,
    {
        end -= 1;
    }
    proof {
        assert(end > start);
        lemma_trailing_white(s@, s.len() - end);
    }
    let mut i: usize = start;
    while i < end
        invariant
            start <= i <= end <= s.len(),
            out@ == s@.subrange(start as int, i as int),
        decreases end - i,
    {
        out.push(s[i]);
        assert(out@ =~= s@.subrange(start as int, i + 1));
        i += 1;
    }
    out
}

/// The lowercase letter for an ASCII capital, any other character as it is.
pub open spec fn ascii_lower(c: char) -> char {
    if 'A' <= c && c <= 'Z' {
        ((c as u8) + 32) as char
    } else {
        c
    }
}

/// `s` with each ASCII capital replaced by its lowercase letter.
pub open spec fn ascii_lowercase(s: Seq<char>) -> Seq<char> {
    Seq::new(s.len(), |i: int| ascii_lower(s[i]))
}

/// The lowercase letter for an ASCII capital, any other character as it is.
pub fn ascii_lower_of(c: char) -> (r: char)
    ensures
        r == ascii_lower(c),
{
    if 'A' <= c && c <= 'Z' {
        ((c as u8) + 32) as char
    } else {
        c
    }
}

/// `s` with each ASCII capital replaced by its lowercase letter.
pub fn to_ascii_lowercase(s: &Vec<char>) -> (r: Vec<char>)
    ensures
        r@ == ascii_lowercase(s@),
{
    let mut out: Vec<char> = Vec::new();
    let mut i: usize = 0;
    while i < s.len()
        invariant
            i <= s.len(),
            out@ == ascii_lowercase(s@).take(i as int),
        decreases s.len() - i,
    {
        out.push(ascii_lower_of(s[i]));
        assert(out@ =~= ascii_lowercase(s@).take(i + 1));
        i += 1;
    }
    assert(ascii_lowercase(s@).take(s.len() as int) =~= ascii_lowercase(s@));
    out
}

/// The part of `s` from `from` up to `to`.
pub fn slice(s: &Vec<char>, from: usize, to: usize) -> (r: Vec<char>)
    requires
        from <= to <= s.len(),
    ensures
        r@ == s@.subrange(from as int, to as int),
{
    let mut out: Vec<char> = Vec::new();
    let mut i: usize = from;
    while i < to
        invariant
            from <= i <= to <= s.len(),
            out@ == s@.subrange(from as int, i as int),
        decreases to - i,
    {
        out.push(s[i]);
        assert(out@ =~= s@.subrange(from as int, i + 1));
        i += 1;
    }
    out
}

/// The path of `name` under the directory `base`.
pub open spec fn joined(base: Seq<char>, name: Seq<char>) -> Seq<char> {
    if base.len() == 0 {
        name
    } else if base.last() == '/' {
        base + name
    } else {
        base + seq!['/'] + name
    }
}

/// The path of `name` under the directory `base`.
pub fn join_path(base: &str, name: &str) -> (r: String)
    ensures
        r@ == joined(base@, name@),
{
    let mut out = chars_of(base);
    if out.len() > 0 && out[out.len() - 1] != '/' {
        out.push('/');
    }
    push_str(&mut out, name);
    let r = text_of(&out);
    assert(r@ =~= joined(base@, name@));
    r
}

/// The view of an optional string.
pub open spec fn opt_view(o: Option<String>) -> Option<Seq<char>> {
    match o {
        Some(s) => Some(s@),
        None => None,
    }
}

/// The views of a list of strings.
pub open spec fn views(v: Seq<String>) -> Seq<Seq<char>> {
    Seq::new(v.len(), |i: int| v[i]@)
}

/// How often `c` occurs in `s`.
pub open spec fn count_char(s: Seq<char>, c: char) -> nat
    decreases s.len(),
{
    if s.len() == 0 {
        0
    } else {
        count_char(s.drop_last(), c) + if s.last() == c {
            1nat
        } else {
            0nat
        }
    }
}

/// The number of lines of a text: a line ends at a line feed, and what
/// follows the last line feed is a line where it is not empty.
pub open spec fn line_count(s: Seq<char>) -> nat {
    count_char(s, '\n') + if s.len() > 0 && s.last() != '\n' {
        1nat
    } else {
        0nat
    }
}

/// The position of the first `c` in `s`, or the length of `s`.
pub open spec fn first_index(s: Seq<char>, c: char) -> int
    decreases s.len(),
{
    if s.len() == 0 || s[0] == c {
        0
    } else {
        1 + first_index(s.drop_first(), c)
    }
}

/// The first line of a text, without the line feed, or the carriage return
/// and line feed, that ends it.
pub open spec fn first_line(s: Seq<char>) -> Seq<char> {
    let end = first_index(s, '\n');
    if 0 < end < s.len() && s[end - 1] == '\r' {
        s.subrange(0, end - 1)
    } else if 0 <= end <= s.len() {
        s.subrange(0, end)
    } else {
        s
    }
}

/// The first `n` characters of `s`, or all of it where it has fewer.
pub open spec fn prefix(s: Seq<char>, n: nat) -> Seq<char> {
    if s.len() <= n {
        s
    } else {
        s.take(n as int)
    }
}

/// How often `c` occurs in `s`.
pub fn count_of(s: &Vec<char>, c: char) -> (n: usize)
    ensures
        n == count_char(s@, c),
{
    let mut n: usize = 0;
    let mut i: usize = 0;
    while i < s.len()
        invariant
            i <= s.len(),
            n == count_char(s@.take(i as int), c),
            n <= i,
        decreases s.len() - i,
    {
        proof {
            assert(s@.take(i + 1).drop_last() =~= s@.take(i as int));
        }
        if s[i] == c {
            n += 1;
        }
        i += 1;
    }
    assert(s@.take(s.len() as int) =~= s@);
    n
}

/// The number of lines of a text.
pub fn lines_in(s: &Vec<char>) -> (n: usize)
    ensures
        n == line_count(s@),
{
    let n = count_of(s, '\n');
    if s.len() > 0 && s[s.len() - 1] != '\n' {
        proof {
            // the last character is no line feed, so fewer line feeds than characters
            assert(s@.take(s.len() as int) =~= s@);
            assert(count_char(s@, '\n') == count_char(s@.drop_last(), '\n'));
            lemma_count_bound(s@.drop_last(), '\n');
        }
        n + 1
    } else {
        n
    }
}

/// A character occurs in a text at most as often as the text is long.
pub proof fn lemma_count_bound(s: Seq<char>, c: char)
    ensures
        count_char(s, c) <= s.len(),
    decreases s.len(),
{
    if s.len() > 0 {
        lemma_count_bound(s.drop_last(), c);
    }
}

/// The position of the first `c` in `s`, or the length of `s`.
pub fn index_of(s: &Vec<char>, c: char) -> (r: usize)
    ensures
        r == first_index(s@, c),
        r <= s.len(),
        r < s.len() ==> s@[r as int] == c,
        forall|j: int| 0 <= j < r ==> s@[j] != c,
{
    let mut i: usize = 0;
    while i < s.len() && s[i] != c
        invariant
            i <= s.len(),
            forall|j: int| 0 <= j < i ==> s@[j] != c,
        decreases s.len() - i,
    {
        i += 1;
    }
    proof {
        lemma_first_index(s@, c, i as int);
    }
    i
}

/// Where the first `c` stands, nothing before it is `c`.
pub proof fn lemma_first_index(s: Seq<char>, c: char, k: int)
    requires
        0 <= k <= s.len(),
        forall|j: int| 0 <= j < k ==> s[j] != c,
        k < s.len() ==> s[k] == c,
    ensures
        first_index(s, c) == k,
    decreases k,
{
    if k > 0 {
        let t = s.drop_first();
        assert forall|j: int| 0 <= j < k - 1 implies t[j] != c by {
            assert(t[j] == s[j + 1]);
        }
        lemma_first_index(t, c, k - 1);
    }
}

/// The first line of a text, without its line ending.
pub fn first_line_of(s: &Vec<char>) -> (r: Vec<char>)
    ensures
        r@ == first_line(s@),
{
    let end = index_of(s, '\n');
    if end > 0 && end < s.len() && s[end - 1] == '\r' {
        slice(s, 0, end - 1)
    } else {
        slice(s, 0, end)
    }
}

/// The first `n` characters of `s`, or all of it where it has fewer.
pub fn prefix_of(s: &Vec<char>, n: usize) -> (r: Vec<char>)
    ensures
        r@ == prefix(s@, n as nat),
{
    if s.len() <= n {
        let r = slice(s, 0, s.len());
        assert(r@ =~= s@);
        r
    } else {
        slice(s, 0, n)
    }
}

/// The text `a` followed by the text `b`.
pub fn concat(a: &str, b: &str) -> (r: String)
    ensures
        r@ == a@ + b@,
{
    let mut out = chars_of(a);
    push_str(&mut out, b);
    text_of(&out)
}

/// The texts `a`, `b` and `c` one after the other.
pub fn concat3(a: &str, b: &str, c: &str) -> (r: String)
    ensures
        r@ == a@ + b@ + c@,
{
    let mut out = chars_of(a);
    push_str(&mut out, b);
    push_str(&mut out, c);
    text_of(&out)
}

/// The length of a text in bytes, as the machine counts it.
pub open spec fn byte_len(s: Seq<char>) -> usize {
    vstd::utf8::encode_utf8(s).len() as usize
}

/// The texts that a list of character vectors holds.
pub open spec fn pieces(v: Seq<Vec<char>>) -> Seq<Seq<char>> {
    Seq::new(v.len(), |i: int| v[i]@)
}

/// The parts of `s` between the occurrences of `sep`: one more part than
/// there are occurrences, empty parts among them.
pub open spec fn split(s: Seq<char>, sep: char) -> Seq<Seq<char>>
    decreases s.len(),
{
    if s.len() == 0 {
        seq![Seq::<char>::empty()]
    } else {
        let init = split(s.drop_last(), sep);
        if s.last() == sep {
            init.push(Seq::<char>::empty())
        } else {
            init.drop_last().push(init.last().push(s.last()))
        }
    }
}

/// A text splits into at least one part.
pub proof fn lemma_split_nonempty(s: Seq<char>, sep: char)
    ensures
        split(s, sep).len() >= 1,
    decreases s.len(),
{
    if s.len() > 0 {
        lemma_split_nonempty(s.drop_last(), sep);
    }
}

/// The parts of `s` between the occurrences of `sep`.
pub fn split_on(s: &Vec<char>, sep: char) -> (parts: Vec<Vec<char>>)
    ensures
        pieces(parts@) == split(s@, sep),
        parts@.len() >= 1,
{
    let mut done: Vec<Vec<char>> = Vec::new();
    let mut current: Vec<char> = Vec::new();
    let mut i: usize = 0;
    assert(s@.take(0) =~= Seq::<char>::empty());
    assert(pieces(done@).push(current@) =~= seq![Seq::<char>::empty()]);
    while i < s.len()
        invariant
            i <= s.len(),
            pieces(done@).push(current@) == split(s@.take(i as int), sep),
        decreases s.len() - i,
    {
        let ghost before = pieces(done@).push(current@);
        proof {
            assert(s@.take(i + 1).drop_last() =~= s@.take(i as int));
            assert(s@.take(i + 1).last() == s@[i as int]);
        }
        if s[i] == sep {
            done.push(current);
            current = Vec::new();
            assert(pieces(done@) =~= before);
            assert(pieces(done@).push(current@) =~= before.push(Seq::<char>::empty()));
        } else {
            let ghost piece = current@;
            current.push(s[i]);
            assert(before.drop_last() =~= pieces(done@));
            assert(before.last() == piece);
        }
        i += 1;
    }
    assert(s@.take(s@.len() as int) =~= s@);
    let ghost before = pieces(done@).push(current@);
    done.push(current);
    assert(pieces(done@) =~= before);
    done
}

/// The parts of `parts` that are not empty, in order.
pub open spec fn nonempty(parts: Seq<Seq<char>>) -> Seq<Seq<char>>
    decreases parts.len(),
{
    if parts.len() == 0 {
        Seq::<Seq<char>>::empty()
    } else if parts.last().len() == 0 {
        nonempty(parts.drop_last())
    } else {
        nonempty(parts.drop_last()).push(parts.last())
    }
}

/// The segments of a path: the parts between its slashes that are not empty.
pub open spec fn segments(path: Seq<char>) -> Seq<Seq<char>> {
    nonempty(split(path, '/'))
}

/// The segments of a path.
pub fn segments_of(path: &str) -> (segs: Vec<Vec<char>>)
    ensures
        pieces(segs@) == segments(path@),
{
    let parts = split_on(&chars_of(path), '/');
    let ghost all = pieces(parts@);
    let mut parts = parts;
    let mut segs: Vec<Vec<char>> = Vec::new();
    let mut i: Ghost<int> = Ghost(0);
    let ghost n = all.len() as int;
    assert(all.take(0) =~= Seq::<Seq<char>>::empty());
    assert(all.skip(0) =~= all);
    while parts.len() > 0
        invariant
            0 <= i@ <= n,
            n == all.len(),
            pieces(parts@) == all.skip(i@),
            pieces(segs@) == nonempty(all.take(i@)),
        decreases parts.len(),
    {
        let ghost before = pieces(segs@);
        let ghost old_parts = parts@;
        proof {
            assert(pieces(old_parts).len() == old_parts.len());
            assert(all.skip(i@).len() == n - i@);
        }
        let part = parts.remove(0);
        proof {
            assert(pieces(old_parts)[0] == old_parts[0]@);
            assert(part@ == all.skip(i@)[0]);
            assert(part@ == all[i@]);
            assert forall|j: int| 0 <= j < parts@.len() implies pieces(parts@)[j] == all.skip(
                i@ + 1,
            )[j] by {
                assert(parts@[j] == old_parts[j + 1]);
                assert(pieces(old_parts)[j + 1] == old_parts[j + 1]@);
                assert(all.skip(i@)[j + 1] == all[i@ + j + 1]);
            }
            assert(pieces(parts@) =~= all.skip(i@ + 1));
            assert(all.take(i@ + 1).drop_last() =~= all.take(i@));
            assert(all.take(i@ + 1).last() == part@);
        }
        if part.len() > 0 {
            segs.push(part);
            assert(pieces(segs@) =~= before.push(part@));
        }
        proof {
            i@ = i@ + 1;
        }
    }
    assert(all.take(n) =~= all);
    segs
}

/// The texts of `parts` one after the other, with `sep` between them.
pub open spec fn join(parts: Seq<Seq<char>>, sep: Seq<char>) -> Seq<char>
    decreases parts.len(),
{
    if parts.len() == 0 {
        Seq::<char>::empty()
    } else if parts.len() == 1 {
        parts[0]
    } else {
        join(parts.drop_last(), sep) + sep + parts.last()
    }
}

/// The words of a text: its longest runs of characters that are no white
/// space.
pub open spec fn words(s: Seq<char>) -> Seq<Seq<char>>
    decreases s.len(),
{
    if s.len() == 0 {
        Seq::<Seq<char>>::empty()
    } else {
        let init = words(s.drop_last());
        if is_white(s.last()) {
            init
        } else if s.len() >= 2 && !is_white(s[s.len() - 2]) && init.len() > 0 {
            init.drop_last().push(init.last().push(s.last()))
        } else {
            init.push(seq![s.last()])
        }
    }
}

/// A text on one line: its words with one space between them.
pub open spec fn on_one_line(s: Seq<char>) -> Seq<char> {
    join(words(s), seq![' '])
}

/// A text that ends in a character that is no white space has a last word.
pub proof fn lemma_words_nonempty(s: Seq<char>)
    requires
        s.len() > 0,
        !is_white(s.last()),
    ensures
        words(s).len() > 0,
{
}

/// A text on one line: its words with one space between them.
pub fn one_line_of(s: &Vec<char>) -> (out: Vec<char>)
    ensures
        out@ == on_one_line(s@),
{
    let mut out: Vec<char> = Vec::new();
    let mut i: usize = 0;
    assert(s@.take(0) =~= Seq::<char>::empty());
    while i < s.len()
        invariant
            i <= s.len(),
            out@ == join(words(s@.take(i as int)), seq![' ']),
        decreases s.len() - i,
    {
        let ghost before = s@.take(i as int);
        let ghost next = s@.take(i + 1);
        proof {
            assert(next.drop_last() =~= before);
            assert(next.last() == s@[i as int]);
            if i > 0 {
                assert(next[next.len() - 2] == s@[i - 1]);
                assert(before.last() == s@[i - 1]);
            }
        }
        let c = s[i];
        if !c.is_whitespace() {
            let in_word = i > 0 && !s[i - 1].is_whitespace();
            proof {
                let w = words(before);
                if in_word {
                    lemma_words_nonempty(before);
                    // the last word grows by one character
                    let grown = w.drop_last().push(w.last().push(c));
                    assert(words(next) == grown);
                    if w.len() == 1 {
                        assert(grown.len() == 1);
                        assert(join(grown, seq![' ']) == grown[0]);
                        assert(join(w, seq![' ']) == w[0]);
                    } else {
                        assert(grown.drop_last() =~= w.drop_last());
                        assert(join(grown, seq![' ']) =~= join(w.drop_last(), seq![' ']) + seq![
                            ' ',
                        ] + w.last().push(c));
                        assert(join(w, seq![' ']) =~= join(w.drop_last(), seq![' ']) + seq![' ']
                            + w.last());
                        assert(join(grown, seq![' ']) =~= join(w, seq![' ']).push(c));
                    }
                } else {
                    let more = w.push(seq![c]);
                    assert(words(next) == more);
                    assert(more.drop_last() =~= w);
                    if w.len() == 0 {
                        assert(join(more, seq![' ']) == seq![c]);
                        assert(join(w, seq![' ']) =~= Seq::<char>::empty());
                    } else {
                        assert(join(more, seq![' ']) =~= join(w, seq![' ']) + seq![' '] + seq![c]);
                    }
                }
            }
            if !in_word && out.len() > 0 {
                out.push(' ');
            }
            proof {
                if !in_word {
                    lemma_words_are_nonempty(before);
                    lemma_join_empty(words(before));
                }
            }
            out.push(c);
        }
        i += 1;
    }
    assert(s@.take(s@.len() as int) =~= s@);
    out
}

/// Words joined by a space give an empty text only where there are no words.
pub proof fn lemma_join_empty(w: Seq<Seq<char>>)
    requires
        forall|i: int| 0 <= i < w.len() ==> (#[trigger] w[i]).len() > 0,
    ensures
        join(w, seq![' ']).len() == 0 <==> w.len() == 0,
    decreases w.len(),
{
    if w.len() > 1 {
        lemma_join_empty(w.drop_last());
    }
}

/// No word is empty.
pub proof fn lemma_words_are_nonempty(s: Seq<char>)
    ensures
        forall|i: int| 0 <= i < words(s).len() ==> (#[trigger] words(s)[i]).len() > 0,
    decreases s.len(),
{
    if s.len() > 0 {
        lemma_words_are_nonempty(s.drop_last());
        let init = words(s.drop_last());
        let w = words(s);
        assert forall|i: int| 0 <= i < w.len() implies (#[trigger] w[i]).len() > 0 by {
            if is_white(s.last()) {
                assert(w[i] == init[i]);
            } else if s.len() >= 2 && !is_white(s[s.len() - 2]) && init.len() > 0 {
                if i < init.len() - 1 {
                    assert(w[i] == init[i]);
                } else {
                    assert(w[i] == init.last().push(s.last()));
                }
            } else {
                if i < init.len() {
                    assert(w[i] == init[i]);
                } else {
                    assert(w[i] == seq![s.last()]);
                }
            }
        }
    }
}

/// What stands for a character in HTML: an entity for each of the five
/// characters that mean something there, any other character itself.
pub open spec fn html_entity(c: char) -> Seq<char> {
    if c == '&' {
        "&amp;"@
    } else if c == '<' {
        "&lt;"@
    } else if c == '>' {
        "&gt;"@
    } else if c == '"' {
        "&quot;"@
    } else if c == '\'' {
        "&#39;"@
    } else {
        seq![c]
    }
}

/// A text as it stands in HTML.
pub open spec fn html_escaped(s: Seq<char>) -> Seq<char>
    decreases s.len(),
{
    if s.len() == 0 {
        Seq::<char>::empty()
    } else {
        html_escaped(s.drop_last()) + html_entity(s.last())
    }
}

/// Appends `s` as it stands in HTML to `out`.
pub fn push_html(out: &mut Vec<char>, s: &Vec<char>)
    ensures
        final(out)@ == old(out)@ + html_escaped(s@),
{
    let mut i: usize = 0;
    assert(s@.take(0) =~= Seq::<char>::empty());
    while i < s.len()
        invariant
            i <= s.len(),
            out@ == old(out)@ + html_escaped(s@.take(i as int)),
        decreases s.len() - i,
    {
        let ghost before = out@;
        proof {
            assert(s@.take(i + 1).drop_last() =~= s@.take(i as int));
            assert(s@.take(i + 1).last() == s@[i as int]);
        }
        let c = s[i];
        if c == '&' {
            push_str(out, "&amp;");
        } else if c == '<' {
            push_str(out, "&lt;");
        } else if c == '>' {
            push_str(out, "&gt;");
        } else if c == '"' {
            push_str(out, "&quot;");
        } else if c == '\'' {
            push_str(out, "&#39;");
        } else {
            out.push(c);
        }
        assert(out@ =~= before + html_entity(c));
        assert(out@ =~= old(out)@ + html_escaped(s@.take(i + 1)));
        i += 1;
    }
    assert(s@.take(s@.len() as int) =~= s@);
}

/// A text as it stands in HTML.
pub fn html_escape(s: &str) -> (r: String)
    ensures
        r@ == html_escaped(s@),
{
    let mut out: Vec<char> = Vec::new();
    push_html(&mut out, &chars_of(s));
    text_of(&out)
}

/// A text as it stands in HTML.
pub fn escaped(s: &Vec<char>) -> (out: Vec<char>)
    ensures
        out@ == html_escaped(s@),
{
    let mut out: Vec<char> = Vec::new();
    push_html(&mut out, s);
    assert(out@ =~= html_escaped(s@));
    out
}

/// The first `max_chars` characters of a text, with an ellipsis after them
/// where the text goes on; nothing where `max_chars` is zero.
pub open spec fn truncated(s: Seq<char>, max_chars: nat) -> Seq<char> {
    if max_chars == 0 {
        Seq::<char>::empty()
    } else if s.len() <= max_chars {
        s
    } else {
        s.take(max_chars as int).push('…')
    }
}

/// The first `max_chars` characters of a text, with an ellipsis after them
/// where the text goes on.
pub fn truncate(s: &Vec<char>, max_chars: usize) -> (out: Vec<char>)
    ensures
        out@ == truncated(s@, max_chars as nat),
{
    if max_chars == 0 {
        return Vec::new();
    }
    if s.len() <= max_chars {
        let out = slice(s, 0, s.len());
        assert(out@ =~= s@);
        out
    } else {
        let mut out = slice(s, 0, max_chars);
        out.push('…');
        out
    }
}

/// The first `max_chars` characters of a text, with an ellipsis after them
/// where the text goes on.
pub fn truncate_chars(s: &str, max_chars: usize) -> (r: String)
    ensures
        r@ == truncated(s@, max_chars as nat),
{
    text_of(&truncate(&chars_of(s), max_chars))
}

/// A text on one line: its words with one space between them.
pub fn one_line(s: &str) -> (r: String)
    ensures
        r@ == on_one_line(s@),
{
    text_of(&one_line_of(&chars_of(s)))
}

/// A line without the carriage return that ends it, where one does.
pub open spec fn without_cr(line: Seq<char>) -> Seq<char> {
    if line.len() > 0 && line.last() == '\r' {
        line.drop_last()
    } else {
        line
    }
}

/// The lines of a text: what stands before each line feed, without the
/// carriage return before it, and what follows the last line feed where
/// that is not empty.
pub open spec fn lines_of(s: Seq<char>) -> Seq<Seq<char>> {
    let parts = split(s, '\n');
    let ended = Seq::new((parts.len() - 1) as nat, |i: int| without_cr(parts[i]));
    if parts.len() > 0 && parts.last().len() > 0 {
        ended.push(parts.last())
    } else {
        ended
    }
}

/// The lines of a text.
pub fn lines(s: &Vec<char>) -> (out: Vec<Vec<char>>)
    ensures
        pieces(out@) == lines_of(s@),
{
    let parts = split_on(s, '\n');
    let ghost all = pieces(parts@);
    let mut out: Vec<Vec<char>> = Vec::new();
    let mut i: usize = 0;
    while i + 1 < parts.len()
        invariant
            i + 1 <= parts.len(),
            all == pieces(parts@),
            out@.len() == i,
            forall|j: int| 0 <= j < i ==> (#[trigger] out@[j])@ == without_cr(all[j]),
        decreases parts.len() - i,
    {
        let part = &parts[i];
        assert(all[i as int] == part@);
        let line = if part.len() > 0 && part[part.len() - 1] == '\r' {
            let l = slice(part, 0, part.len() - 1);
            assert(l@ =~= part@.drop_last());
            l
        } else {
            let l = slice(part, 0, part.len());
            assert(l@ =~= part@);
            l
        };
        out.push(line);
        i += 1;
    }
    let last = &parts[parts.len() - 1];
    assert(all.last() == last@);
    if last.len() > 0 {
        let l = slice(last, 0, last.len());
        assert(l@ =~= last@);
        out.push(l);
    }
    assert(pieces(out@) =~= lines_of(s@));
    out
}

/// `s` without the characters `c` at its beginning.
pub open spec fn without_leading(s: Seq<char>, c: char) -> Seq<char>
    decreases s.len(),
{
    if s.len() > 0 && s[0] == c {
        without_leading(s.drop_first(), c)
    } else {
        s
    }
}

/// `s` without the characters `c` at its beginning.
pub fn trim_start_matches(s: &Vec<char>, c: char) -> (r: Vec<char>)
    ensures
        r@ == without_leading(s@, c),
{
    let mut start: usize = 0;
    assert(s@.skip(0) =~= s@);
    while start < s.len() && s[start] == c
        invariant
            start <= s.len(),
            without_leading(s@, c) == without_leading(s@.skip(start as int), c),
        decreases s.len() - start,
    {
        proof {
            assert(s@.skip(start as int)[0] == s@[start as int]);
            assert(s@.skip(start as int).drop_first() =~= s@.skip(start + 1));
        }
        start += 1;
    }
    proof {
        if start < s.len() {
            assert(s@.skip(start as int)[0] == s@[start as int]);
        }
    }
    let r = slice(s, start, s.len());
    assert(r@ =~= s@.skip(start as int));
    r
}

/// The texts of `parts` one after the other, with `sep` between them.
pub fn join_texts(parts: &Vec<String>, sep: &str) -> (r: String)
    ensures
        r@ == join(views(parts@), sep@),
{
    let ghost all = views(parts@);
    let mut out: Vec<char> = Vec::new();
    let mut i: usize = 0;
    assert(all.take(0) =~= Seq::<Seq<char>>::empty());
    while i < parts.len()
        invariant
            i <= parts.len(),
            all == views(parts@),
            out@ == join(all.take(i as int), sep@),
        decreases parts.len() - i,
    {
        proof {
            assert(all.take(i + 1).drop_last() =~= all.take(i as int));
            assert(all.take(i + 1).last() == parts@[i as int]@);
            if i == 0 {
                assert(all.take(1)[0] == parts@[0]@);
            }
        }
        if i > 0 {
            push_str(&mut out, sep);
            push_str(&mut out, parts[i].as_str());
        } else {
            push_str(&mut out, parts[i].as_str());
            assert(out@ =~= parts@[0]@);
        }
        i += 1;
    }
    assert(all.take(parts@.len() as int) =~= all);
    text_of(&out)
}

/// `s` with every occurrence of `from` replaced by `to`, read from the
/// left; an occurrence begins only after the one before it has ended. An
/// empty `from` occurs nowhere.
pub open spec fn replaced(s: Seq<char>, from: Seq<char>, to: Seq<char>) -> Seq<char>
    decreases s.len(),
{
    if from.len() == 0 || s.len() < from.len() {
        s
    } else if occurs_at(s, from, 0) {
        to + replaced(s.skip(from.len() as int), from, to)
    } else {
        seq![s[0]] + replaced(s.skip(1), from, to)
    }
}

/// `s` with every occurrence of `from` replaced by `to`.
pub fn replace_all(s: &Vec<char>, from: &Vec<char>, to: &Vec<char>) -> (out: Vec<char>)
    ensures
        out@ == replaced(s@, from@, to@),
{
    let mut out: Vec<char> = Vec::new();
    if from.len() == 0 {
        push_all(&mut out, s);
        assert(out@ =~= s@);
        return out;
    }
    let mut i: usize = 0;
    assert(s@.skip(0) =~= s@);
    assert(out@ + replaced(s@, from@, to@) =~= replaced(s@, from@, to@));
    while i < s.len()
        invariant
            i <= s.len(),
            from@.len() > 0,
            replaced(s@, from@, to@) == out@ + replaced(s@.skip(i as int), from@, to@),
        decreases s.len() - i,
    {
        let ghost rest = s@.skip(i as int);
        let ghost before = out@;
        if has_at(s, from, i) {
            proof {
                assert(rest.subrange(0, from@.len() as int) =~= s@.subrange(
                    i as int,
                    i + from@.len(),
                ));
                assert(occurs_at(rest, from@, 0));
                assert(rest.skip(from@.len() as int) =~= s@.skip(i + from@.len()));
            }
            push_all(&mut out, to);
            i += from.len();
            proof {
                assert((before + to@) + replaced(s@.skip(i as int), from@, to@) =~= before + (to@
                    + replaced(s@.skip(i as int), from@, to@)));
            }
        } else {
            proof {
                if rest.len() >= from@.len() {
                    assert(rest.subrange(0, from@.len() as int) =~= s@.subrange(
                        i as int,
                        i + from@.len(),
                    ));
                    assert(!occurs_at(rest, from@, 0));
                    assert(rest.skip(1) =~= s@.skip(i + 1));
                }
            }
            if s.len() - i < from.len() {
                let mut k: usize = i;
                while k < s.len()
                    invariant
                        i <= k <= s.len(),
                        out@ == before + s@.subrange(i as int, k as int),
                    decreases s.len() - k,
                {
                    out.push(s[k]);
                    assert(out@ =~= before + s@.subrange(i as int, k + 1));
                    k += 1;
                }
                proof {
                    assert(s@.subrange(i as int, s@.len() as int) =~= rest);
                    assert(s@.skip(s@.len() as int) =~= Seq::<char>::empty());
                    assert(out@ + replaced(s@.skip(s@.len() as int), from@, to@) =~= before
                        + rest);
                }
                i = s.len();
            } else {
                out.push(s[i]);
                i += 1;
                proof {
                    assert(out@ =~= before + seq![rest[0]]);
                    assert((before + seq![rest[0]]) + replaced(s@.skip(i as int), from@, to@)
                        =~= before + (seq![rest[0]] + replaced(s@.skip(i as int), from@, to@)));
                }
            }
        }
    }
    proof {
        assert(s@.skip(s@.len() as int) =~= Seq::<char>::empty());
        assert(out@ + Seq::<char>::empty() =~= out@);
    }
    out
}

/// The characters that `s` begins with up to the first white space.
pub open spec fn leading_word(s: Seq<char>) -> Seq<char>
    decreases s.len(),
{
    if s.len() == 0 || is_white(s[0]) {
        Seq::<char>::empty()
    } else {
        seq![s[0]] + leading_word(s.drop_first())
    }
}

/// The first word of a text: what stands between the white space at its
/// beginning and the next white space. Empty where the text has no word.
pub open spec fn first_word(s: Seq<char>) -> Seq<char>
    decreases s.len(),
{
    if s.len() == 0 {
        Seq::<char>::empty()
    } else if is_white(s[0]) {
        first_word(s.drop_first())
    } else {
        leading_word(s)
    }
}

/// The first word of a text.
pub fn first_word_of(s: &Vec<char>) -> (out: Vec<char>)
    ensures
        out@ == first_word(s@),
{
    let mut start: usize = 0;
    assert(s@.skip(0) =~= s@);
    while start < s.len() && s[start].is_whitespace()
        invariant
            start <= s.len(),
            first_word(s@) == first_word(s@.skip(start as int)),
        decreases s.len() - start,
    {
        proof {
            assert(s@.skip(start as int)[0] == s@[start as int]);
            assert(s@.skip(start as int).drop_first() =~= s@.skip(start + 1));
        }
        start += 1;
    }
    let mut out: Vec<char> = Vec::new();
    let mut i: usize = start;
    proof {
        if start < s.len() {
            assert(s@.skip(start as int)[0] == s@[start as int]);
        }
        assert(out@ + leading_word(s@.skip(i as int)) =~= leading_word(s@.skip(i as int)));
    }
    while i < s.len() && !s[i].is_whitespace()
        invariant
            start <= i <= s.len(),
            first_word(s@) == out@ + leading_word(s@.skip(i as int)),
        decreases s.len() - i,
    {
        let ghost before = out@;
        proof {
            assert(s@.skip(i as int)[0] == s@[i as int]);
            assert(s@.skip(i as int).drop_first() =~= s@.skip(i + 1));
        }
        out.push(s[i]);
        i += 1;
        proof {
            assert((before + seq![s@[i - 1]]) + leading_word(s@.skip(i as int)) =~= before + (
            seq![s@[i - 1]] + leading_word(s@.skip(i as int))));
            assert(out@ =~= before + seq![s@[i - 1]]);
        }
    }
    proof {
        if i < s.len() {
            assert(s@.skip(i as int)[0] == s@[i as int]);
        }
        assert(out@ + Seq::<char>::empty() =~= out@);
    }
    out
}

} // verus!
