//! The documents of the local files: which files are read, and how their
//! text is cut into parts.

use vstd::prelude::*;
use crate::level::{decimal, decimal_of};
use crate::text::{byte_len, chars_of, is_str, push_all, push_str, slice, text_of, trim, trimmed};

verus! {

/// A file with this ending is read for documents.
pub open spec fn document_ending(ext: Seq<char>) -> bool {
    ext == "rs"@ || ext == "md"@ || ext == "toml"@ || ext == "yaml"@ || ext == "json"@
}

/// Whether a file with this ending is read for documents.
pub fn is_document_ending(ext: &str) -> (r: bool)
    ensures
        r == document_ending(ext@),
{
    let e = chars_of(ext);
    is_str(&e, "rs") || is_str(&e, "md") || is_str(&e, "toml") || is_str(&e, "yaml") || is_str(
        &e,
        "json",
    )
}

/// One part of a file: its number among the parts of the file, and its
/// text.
#[derive(Debug)]
pub struct Chunk {
    pub index: usize,
    pub content: String,
}

/// The part of a text with the number `i`: its characters from `2000 * i`
/// on, two thousand of them at most.
pub open spec fn part(s: Seq<char>, i: int) -> Seq<char> {
    s.subrange(
        2000 * i,
        if 2000 * (i + 1) < s.len() {
            2000 * (i + 1)
        } else {
            s.len() as int
        },
    )
}

/// How many parts a text has.
pub open spec fn part_count(s: Seq<char>) -> int {
    s.len() / 2000 + if s.len() % 2000 > 0 {
        1int
    } else {
        0int
    }
}

/// A part is kept: without the white space around it, it takes more than
/// fifty bytes.
pub open spec fn worth_keeping(text: Seq<char>) -> bool {
    byte_len(trimmed(text)) > 50
}

/// The parts among the first `n` parts of a text that are kept, each with
/// its number.
pub open spec fn kept_parts(s: Seq<char>, n: int) -> Seq<(int, Seq<char>)>
    decreases n,
{
    if n <= 0 {
        Seq::<(int, Seq<char>)>::empty()
    } else if worth_keeping(part(s, n - 1)) {
        kept_parts(s, n - 1).push((n - 1, part(s, n - 1)))
    } else {
        kept_parts(s, n - 1)
    }
}

/// What parts hold.
pub open spec fn chunks_view(chunks: Seq<Chunk>) -> Seq<(int, Seq<char>)> {
    Seq::new(chunks.len(), |i: int| (chunks[i].index as int, chunks[i].content@))
}

/// The parts of a text that are kept as documents: the text is cut into
/// parts of two thousand characters, and a part is kept where it holds
/// enough.
pub fn chunks_of(content: &str) -> (chunks: Vec<Chunk>)
    ensures
        chunks_view(chunks@) == kept_parts(content@, part_count(content@)),
{
    let s = chars_of(content);
    let n: usize = s.len() / 2000 + if s.len() % 2000 > 0 {
        1
    } else {
        0
    };
    let mut chunks: Vec<Chunk> = Vec::new();
    let mut i: usize = 0;
    assert(chunks_view(chunks@) =~= Seq::<(int, Seq<char>)>::empty());
    while i < n
        invariant
            s@ == content@,
            i <= n,
            n == part_count(s@),
            chunks_view(chunks@) == kept_parts(s@, i as int),
        decreases n - i,
    {
        let from: usize = i * 2000;
        let to: usize = if s.len() - from > 2000 {
            from + 2000
        } else {
            s.len()
        };
        let text = slice(&s, from, to);
        assert(text@ =~= part(s@, i as int));
        let kept = text_of(&trim(&text));
        if kept.as_str().len() > 50 {
            let ghost before = chunks_view(chunks@);
            chunks.push(Chunk { index: i, content: text_of(&text) });
            assert(chunks_view(chunks@) =~= before.push((i as int, part(s@, i as int))));
        }
        i += 1;
    }
    chunks
}

/// The identifier of a part of a file: the path of the file, a `#` and
/// the number of the part.
pub fn document_id(path: &str, index: usize) -> (r: String)
    ensures
        r@ == path@ + "#"@ + decimal(index as nat),
{
    let mut out = chars_of(path);
    push_str(&mut out, "#");
    push_all(&mut out, &decimal_of(index as u64));
    text_of(&out)
}

} // verus!
