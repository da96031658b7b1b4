//! The end of a file that grows: which part of it is read, and which of its
//! lines count.

use vstd::prelude::*;
use crate::text::{
    blank, chars_of, first_index, index_of, is_blank, lines, lines_of, pieces, slice,
    text_from_utf8_lossy, text_of, utf8_lossy, views,
};

verus! {

/// Where reading begins in a file of `len` bytes of which no more than the
/// last `max_bytes` are read.
pub open spec fn tail_start(len: u64, max_bytes: u64) -> u64 {
    if len > max_bytes {
        (len - max_bytes) as u64
    } else {
        0
    }
}

/// Where reading begins.
pub fn tail_start_of(len: u64, max_bytes: u64) -> (r: u64)
    ensures
        r == tail_start(len, max_bytes),
{
    if len > max_bytes {
        len - max_bytes
    } else {
        0
    }
}

/// A text without its first line: what follows the first line feed. A text
/// without a line feed stays as it is.
pub open spec fn after_first_line(s: Seq<char>) -> Seq<char> {
    if first_index(s, '\n') < s.len() {
        s.skip(first_index(s, '\n') + 1)
    } else {
        s
    }
}

/// The lines that are not blank, in their order.
pub open spec fn filled(all: Seq<Seq<char>>) -> Seq<Seq<char>>
    decreases all.len(),
{
    if all.len() == 0 {
        Seq::<Seq<char>>::empty()
    } else if blank(all.last()) {
        filled(all.drop_last())
    } else {
        filled(all.drop_last()).push(all.last())
    }
}

/// The last `limit` of the lines, or all of them where they are fewer.
pub open spec fn last_of(all: Seq<Seq<char>>, limit: nat) -> Seq<Seq<char>> {
    if all.len() > limit {
        all.skip(all.len() - limit)
    } else {
        all
    }
}

/// The lines at the end of a text that count: the text is read from its
/// second line on where it was cut at its beginning, blank lines are left
/// out, and of the others the last `limit` stay.
pub open spec fn tail_of(text: Seq<char>, cut: bool, limit: nat) -> Seq<Seq<char>> {
    last_of(
        filled(
            lines_of(
                if cut {
                    after_first_line(text)
                } else {
                    text
                },
            ),
        ),
        limit,
    )
}

/// The lines at the end of a text that count.
pub fn tail_of_text(text: &str, cut: bool, limit: usize) -> (out: Vec<String>)
    ensures
        views(out@) == tail_of(text@, cut, limit as nat),
{
    let all = chars_of(text);
    let mut read = slice(&all, 0, all.len());
    assert(read@ =~= all@);
    if cut {
        let at = index_of(&all, '\n');
        if at < all.len() {
            read = slice(&all, at + 1, all.len());
            assert(read@ =~= all@.skip(at + 1));
        }
    }
    let found = lines(&read);
    let ghost every = pieces(found@);
    let mut kept: Vec<String> = Vec::new();
    let mut i: usize = 0;
    assert(every.take(0) =~= Seq::<Seq<char>>::empty());
    assert(views(kept@) =~= Seq::<Seq<char>>::empty());
    while i < found.len()
        invariant
            i <= found.len(),
            every == pieces(found@),
            views(kept@) == filled(every.take(i as int)),
        decreases found.len() - i,
    {
        proof {
            assert(every.take(i + 1).drop_last() =~= every.take(i as int));
            assert(every.take(i + 1).last() == found@[i as int]@);
        }
        if !is_blank(&found[i]) {
            let ghost before = views(kept@);
            kept.push(text_of(&found[i]));
            assert(views(kept@) =~= before.push(found@[i as int]@));
        }
        i += 1;
    }
    assert(every.take(found@.len() as int) =~= every);
    if kept.len() <= limit {
        return kept;
    }
    let ghost all_kept = views(kept@);
    let from = kept.len() - limit;
    let mut out: Vec<String> = Vec::new();
    let mut k: usize = from;
    assert(views(out@) =~= all_kept.subrange(from as int, k as int));
    while k < kept.len()
        invariant
            from <= k <= kept.len(),
            all_kept == views(kept@),
            views(out@) == all_kept.subrange(from as int, k as int),
        decreases kept.len() - k,
    {
        let ghost before = views(out@);
        out.push(kept[k].clone());
        assert(views(out@) =~= before.push(kept@[k as int]@));
        assert(all_kept.subrange(from as int, k + 1) =~= all_kept.subrange(
            from as int,
            k as int,
        ).push(all_kept[k as int]));
        k += 1;
    }
    assert(all_kept.subrange(from as int, kept@.len() as int) =~= all_kept.skip(from as int));
    out
}

/// The lines that count at the end of a file of which the bytes `bytes`
/// were read, as text in UTF-8 with what is invalid replaced. `cut` says
/// that reading began inside the file.
pub fn tail_lines(bytes: &[u8], cut: bool, limit: usize) -> (out: Vec<String>)
    ensures
        views(out@) == tail_of(utf8_lossy(bytes@), cut, limit as nat),
{
    let text = text_from_utf8_lossy(bytes);
    tail_of_text(text.as_str(), cut, limit)
}

} // verus!
