//! The index of research artifacts: what an artifact is, how its kind and
//! checksum are found, and how the indexes of several roots are merged.

use vstd::prelude::*;
use crate::text::{
    begins_with, chars_of, contains_str, contains_text, ends_with, finishes_with, is_str, lines,
    lines_of, lowercase, pieces, same_text, starts_with, text_from_utf8_lossy, text_of, trim,
    trim_start_matches, trimmed, utf8_lossy, views, without_leading,
};

verus! {

/// One indexed file. `ttl` is the time in seconds for which the entry stays
/// fresh, zero for entries that never go stale; `checksum` is the Adler-32
/// checksum of the content in eight hexadecimal digits.
#[derive(Debug)]
pub struct ResearchArtifact {
    pub id: String,
    pub kind: String,
    pub path: String,
    pub ts: String,
    pub ttl: u64,
    pub tags: Vec<String>,
    pub checksum: String,
    pub git_commit: Option<String>,
    pub git_branch: Option<String>,
}

/// The kind of the file at a lowercased path, by the directory it lies in
/// and by its ending.
pub open spec fn kind_in(p: Seq<char>) -> Seq<char> {
    if contains_text(p, "/prompts/"@) {
        "prompt"@
    } else if contains_text(p, "/policies/"@) {
        "policy"@
    } else if contains_text(p, "/schemas/"@) {
        "schema"@
    } else if contains_text(p, "/trace/golden/"@) {
        "trace"@
    } else if contains_text(p, "/docs/"@) || ends_with(p, "readme.md"@) {
        "doc"@
    } else if ends_with(p, ".json"@) || ends_with(p, ".yaml"@) || ends_with(p, ".yml"@) {
        "dataset"@
    } else {
        "other"@
    }
}

/// The kind of the file at an already lowercased path.
pub fn kind_for_lowered(path: &str) -> (r: String)
    ensures
        r@ == kind_in(path@),
{
    let p = chars_of(path);
    if contains_str(&p, "/prompts/") {
        return "prompt".to_owned();
    }
    if contains_str(&p, "/policies/") {
        return "policy".to_owned();
    }
    if contains_str(&p, "/schemas/") {
        return "schema".to_owned();
    }
    if contains_str(&p, "/trace/golden/") {
        return "trace".to_owned();
    }
    if contains_str(&p, "/docs/") || finishes_with(&p, "readme.md") {
        return "doc".to_owned();
    }
    if finishes_with(&p, ".json") || finishes_with(&p, ".yaml") || finishes_with(&p, ".yml") {
        return "dataset".to_owned();
    }
    "other".to_owned()
}

/// The kind of the file at a path, read without regard to case.
pub fn kind_for(path: &str) -> (r: String)
    ensures
        r@ == kind_in(lowercase(path@)),
{
    let p = path.to_lowercase();
    kind_for_lowered(p.as_str())
}

/// The first sum of the Adler-32 checksum: one plus the bytes, modulo 65521.
pub open spec fn adler_a(bytes: Seq<u8>) -> nat
    decreases bytes.len(),
{
    if bytes.len() == 0 {
        1
    } else {
        ((adler_a(bytes.drop_last()) + bytes.last() as nat) % 65521) as nat
    }
}

/// The second sum of the Adler-32 checksum: the sum of the first sums,
/// modulo 65521.
pub open spec fn adler_b(bytes: Seq<u8>) -> nat
    decreases bytes.len(),
{
    if bytes.len() == 0 {
        0
    } else {
        ((adler_b(bytes.drop_last()) + adler_a(bytes)) % 65521) as nat
    }
}

/// The Adler-32 checksum: the second sum in the high half, the first in the
/// low half.
pub open spec fn adler32_of(bytes: Seq<u8>) -> nat {
    adler_b(bytes) * 65536 + adler_a(bytes)
}

pub fn adler32(bytes: &[u8]) -> (r: u32)
    ensures
        r == adler32_of(bytes@),
{
    let mut a: u32 = 1;
    let mut b: u32 = 0;
    let mut i: usize = 0;
    while i < bytes.len()
        invariant
            i <= bytes.len(),
            a == adler_a(bytes@.take(i as int)),
            b == adler_b(bytes@.take(i as int)),
            a < 65521,
            b < 65521,
        decreases bytes.len() - i,
    {
        proof {
            assert(bytes@.take(i + 1).drop_last() =~= bytes@.take(i as int));
            assert(bytes@.take(i + 1).last() == bytes@[i as int]);
        }
        a = (a + bytes[i] as u32) % 65521;
        b = (b + a) % 65521;
        i += 1;
    }
    assert(bytes@.take(bytes@.len() as int) =~= bytes@);
    b * 65536 + a
}

/// The hexadecimal digit for `d`, `'0'` where `d` is no digit.
pub open spec fn hex_digit(d: int) -> char {
    if d == 1 {
        '1'
    } else if d == 2 {
        '2'
    } else if d == 3 {
        '3'
    } else if d == 4 {
        '4'
    } else if d == 5 {
        '5'
    } else if d == 6 {
        '6'
    } else if d == 7 {
        '7'
    } else if d == 8 {
        '8'
    } else if d == 9 {
        '9'
    } else if d == 10 {
        'a'
    } else if d == 11 {
        'b'
    } else if d == 12 {
        'c'
    } else if d == 13 {
        'd'
    } else if d == 14 {
        'e'
    } else if d == 15 {
        'f'
    } else {
        '0'
    }
}

/// The last `width` hexadecimal digits of `n`, with leading zeros.
pub open spec fn hex_padded(n: nat, width: nat) -> Seq<char>
    decreases width,
{
    if width == 0 {
        Seq::<char>::empty()
    } else {
        hex_padded(n / 16, (width - 1) as nat).push(hex_digit((n % 16) as int))
    }
}

/// The hexadecimal digit for `d`.
pub fn hex_digit_of(d: u32) -> (c: char)
    ensures
        c == hex_digit(d as int),
{
    if d == 1 {
        '1'
    } else if d == 2 {
        '2'
    } else if d == 3 {
        '3'
    } else if d == 4 {
        '4'
    } else if d == 5 {
        '5'
    } else if d == 6 {
        '6'
    } else if d == 7 {
        '7'
    } else if d == 8 {
        '8'
    } else if d == 9 {
        '9'
    } else if d == 10 {
        'a'
    } else if d == 11 {
        'b'
    } else if d == 12 {
        'c'
    } else if d == 13 {
        'd'
    } else if d == 14 {
        'e'
    } else if d == 15 {
        'f'
    } else {
        '0'
    }
}

/// Appends the last `width` hexadecimal digits of `n` to `out`.
pub fn push_hex(out: &mut Vec<char>, n: u32, width: u8)
    ensures
        final(out)@ == old(out)@ + hex_padded(n as nat, width as nat),
    decreases width,
{
    if width > 0 {
        push_hex(out, n / 16, width - 1);
        out.push(hex_digit_of(n % 16));
    }
    assert(out@ =~= old(out)@ + hex_padded(n as nat, width as nat));
}

/// The checksum of a content as it stands in the index: eight hexadecimal
/// digits.
pub fn checksum_text(bytes: &[u8]) -> (r: String)
    ensures
        r@ == hex_padded(adler32_of(bytes@), 8),
{
    let mut out: Vec<char> = Vec::new();
    push_hex(&mut out, adler32(bytes), 8);
    assert(out@ =~= hex_padded(adler32_of(bytes@), 8));
    crate::text::text_of(&out)
}

/// The time for which an index entry stays fresh: golden traces never go
/// stale, everything else after fourteen days.
pub open spec fn ttl_for(path: Seq<char>) -> u64 {
    if contains_text(path, "trace/golden/"@) {
        0
    } else {
        1_209_600
    }
}

/// The time for which the index entry of the file at `path` stays fresh.
pub fn ttl_of(path: &str) -> (r: u64)
    ensures
        r == ttl_for(path@),
{
    let p = chars_of(path);
    if contains_str(&p, "trace/golden/") {
        0
    } else {
        14 * 24 * 3600
    }
}

/// Whether a file with this ending is indexed.
pub open spec fn indexed_ending(ext: Seq<char>) -> bool {
    ext == "md"@ || ext == "json"@ || ext == "jsonl"@ || ext == "yaml"@ || ext == "yml"@
}

/// Whether a file with this ending is indexed.
pub fn is_indexed_ending(ext: &str) -> (r: bool)
    ensures
        r == indexed_ending(ext@),
{
    let e = chars_of(ext);
    crate::text::is_str(&e, "md") || crate::text::is_str(&e, "json") || crate::text::is_str(
        &e,
        "jsonl",
    ) || crate::text::is_str(&e, "yaml") || crate::text::is_str(&e, "yml")
}

/// One of `kept` has the checksum `c`.
pub open spec fn has_sum(kept: Seq<ResearchArtifact>, c: Seq<char>) -> bool {
    exists|j: int| 0 <= j < kept.len() && (#[trigger] kept[j]).checksum@ == c
}

/// The artifacts `kept` with those of `items` added that bring a checksum
/// which none before them has, in order.
pub open spec fn absorbed(kept: Seq<ResearchArtifact>, items: Seq<ResearchArtifact>) -> Seq<
    ResearchArtifact,
>
    decreases items.len(),
{
    if items.len() == 0 {
        kept
    } else {
        let init = absorbed(kept, items.drop_last());
        if has_sum(init, items.last().checksum@) {
            init
        } else {
            init.push(items.last())
        }
    }
}

/// The index that several indexes merge into: their artifacts in order,
/// without those whose checksum an earlier artifact has.
pub open spec fn merged_index(indexes: Seq<Vec<ResearchArtifact>>) -> Seq<ResearchArtifact>
    decreases indexes.len(),
{
    if indexes.len() == 0 {
        Seq::<ResearchArtifact>::empty()
    } else {
        absorbed(merged_index(indexes.drop_last()), indexes.last()@)
    }
}

/// Whether one of `kept` has the checksum `c`.
fn has_checksum(kept: &Vec<ResearchArtifact>, c: &Vec<char>) -> (r: bool)
    ensures
        r == has_sum(kept@, c@),
{
    let mut j: usize = 0;
    while j < kept.len()
        invariant
            j <= kept.len(),
            forall|k: int| 0 <= k < j ==> (#[trigger] kept@[k]).checksum@ != c@,
        decreases kept.len() - j,
    {
        let other = chars_of(kept[j].checksum.as_str());
        if same_text(&other, c) {
            return true;
        }
        j += 1;
    }
    false
}

/// Adds the artifacts of one index to the merged index.
fn absorb(all: &mut Vec<ResearchArtifact>, items: Vec<ResearchArtifact>)
    ensures
        final(all)@ == absorbed(old(all)@, items@),
{
    let mut items = items;
    let ghost whole = items@;
    let mut used: Ghost<int> = Ghost(0);
    assert(whole.take(0) =~= Seq::<ResearchArtifact>::empty());
    assert(whole.skip(0) =~= whole);
    while items.len() > 0
        invariant
            0 <= used@ <= whole.len(),
            items@ == whole.skip(used@),
            all@ == absorbed(old(all)@, whole.take(used@)),
        decreases items.len(),
    {
        let a = items.remove(0);
        proof {
            assert(a == whole[used@]);
            assert(items@ =~= whole.skip(used@ + 1));
            assert(whole.take(used@ + 1).drop_last() =~= whole.take(used@));
            assert(whole.take(used@ + 1).last() == a);
        }
        let c = chars_of(a.checksum.as_str());
        if !has_checksum(all, &c) {
            all.push(a);
        }
        proof {
            used@ = used@ + 1;
        }
    }
    assert(whole.take(whole.len() as int) =~= whole);
}

/// Merges the indexes of several roots into one: the artifacts in the order
/// of the roots, without those whose checksum an earlier artifact has.
pub fn build_index_multi(indexes: Vec<Vec<ResearchArtifact>>) -> (all: Vec<ResearchArtifact>)
    ensures
        all@ == merged_index(indexes@),
{
    let mut all: Vec<ResearchArtifact> = Vec::new();
    let mut rest = indexes;
    let mut taken: Ghost<int> = Ghost(0);
    assert(indexes@.skip(0) =~= indexes@);
    assert(indexes@.take(0) =~= Seq::<Vec<ResearchArtifact>>::empty());
    while rest.len() > 0
        invariant
            0 <= taken@ <= indexes@.len(),
            rest@ == indexes@.skip(taken@),
            all@ == merged_index(indexes@.take(taken@)),
        decreases rest.len(),
    {
        let items = rest.remove(0);
        proof {
            assert(items == indexes@[taken@]);
            assert(rest@ =~= indexes@.skip(taken@ + 1));
            assert(indexes@.take(taken@ + 1).drop_last() =~= indexes@.take(taken@));
            assert(indexes@.take(taken@ + 1).last() == items);
        }
        absorb(&mut all, items);
        proof {
            taken@ = taken@ + 1;
        }
    }
    assert(indexes@.take(indexes@.len() as int) =~= indexes@);
    all
}

/// The tags that the lines of a front matter give, from the line `lines[0]`
/// on. A line `tags:` opens the list of tags; each line of the list that
/// begins with a hyphen gives what follows its hyphens as a tag; an empty
/// line ends the front matter, any other line the list. The line `---` ends
/// the front matter.
pub open spec fn tags_from(lines: Seq<Seq<char>>, in_tags: bool) -> Seq<Seq<char>>
    decreases lines.len(),
{
    if lines.len() == 0 {
        Seq::<Seq<char>>::empty()
    } else {
        let t = trimmed(lines[0]);
        let rest = lines.drop_first();
        if t == "---"@ {
            Seq::<Seq<char>>::empty()
        } else if starts_with(t, "tags:"@) {
            tags_from(rest, true)
        } else if !in_tags {
            tags_from(rest, false)
        } else if t.len() > 0 && t[0] == '-' {
            let tag = trimmed(without_leading(t, '-'));
            if tag.len() > 0 {
                seq![tag] + tags_from(rest, true)
            } else {
                tags_from(rest, true)
            }
        } else if t.len() == 0 {
            Seq::<Seq<char>>::empty()
        } else {
            tags_from(rest, false)
        }
    }
}

/// The tags of a text: those of its front matter, where it begins with the
/// line `---`.
pub open spec fn front_matter(text: Seq<char>) -> Seq<Seq<char>> {
    let ls = lines_of(text);
    if ls.len() > 0 && trimmed(ls[0]) == "---"@ {
        tags_from(ls.drop_first(), false)
    } else {
        Seq::<Seq<char>>::empty()
    }
}

/// The tags of an already decoded text.
pub fn front_matter_tags_of(text: &str) -> (tags: Vec<String>)
    ensures
        views(tags@) == front_matter(text@),
{
    let mut tags: Vec<String> = Vec::new();
    let ls = lines(&chars_of(text));
    let ghost all = pieces(ls@);
    assert(views(tags@) =~= Seq::<Seq<char>>::empty());
    if ls.len() == 0 {
        return tags;
    }
    assert(all[0] == ls@[0]@);
    if !is_str(&trim(&ls[0]), "---") {
        return tags;
    }
    let mut in_tags = false;
    let mut done = false;
    let mut i: usize = 1;
    assert(all.skip(1) =~= all.drop_first());
    while i < ls.len() && !done
        invariant
            1 <= i <= ls.len(),
            all == pieces(ls@),
            !done ==> front_matter(text@) == views(tags@) + tags_from(all.skip(i as int), in_tags),
            done ==> front_matter(text@) == views(tags@),
        decreases ls.len() - i + if done { 0int } else { 1int },
    {
        let ghost before = views(tags@);
        let ghost rest = all.skip(i as int);
        proof {
            assert(rest[0] == ls@[i as int]@);
            assert(rest.drop_first() =~= all.skip(i + 1));
        }
        let t = trim(&ls[i]);
        if is_str(&t, "---") {
            done = true;
            assert(before + Seq::<Seq<char>>::empty() =~= before);
        } else if begins_with(&t, "tags:") {
            in_tags = true;
            i += 1;
        } else if !in_tags {
            i += 1;
        } else if t.len() > 0 && t[0] == '-' {
            let tag = trim(&trim_start_matches(&t, '-'));
            if tag.len() > 0 {
                tags.push(text_of(&tag));
                assert(views(tags@) =~= before.push(tag@));
                assert(before + (seq![tag@] + tags_from(all.skip(i + 1), true)) =~= before.push(
                    tag@,
                ) + tags_from(all.skip(i + 1), true));
            }
            i += 1;
        } else if t.len() == 0 {
            done = true;
            assert(before + Seq::<Seq<char>>::empty() =~= before);
        } else {
            in_tags = false;
            i += 1;
        }
    }
    proof {
        if !done {
            assert(all.skip(i as int) =~= Seq::<Seq<char>>::empty());
            assert(views(tags@) + Seq::<Seq<char>>::empty() =~= views(tags@));
        }
    }
    tags
}

/// The tags of a file: those of the front matter of its content, read as
/// text.
pub fn front_matter_tags(buf: &[u8]) -> (tags: Vec<String>)
    ensures
        views(tags@) == front_matter(utf8_lossy(buf@)),
{
    let text = text_from_utf8_lossy(buf);
    front_matter_tags_of(text.as_str())
}

/// `a` is the index entry of the file at `rel` with this content and
/// these tags.
pub open spec fn entry_for(
    a: ResearchArtifact,
    rel: Seq<char>,
    full: Seq<char>,
    bytes: Seq<u8>,
    ts: Seq<char>,
) -> bool {
    let sum = hex_padded(adler32_of(bytes), 8);
    let kind = kind_in(lowercase(full));
    let tags = front_matter(utf8_lossy(bytes));
    &&& a.checksum@ == sum
    &&& a.id@ == rel + "#"@ + sum
    &&& a.kind@ == kind
    &&& a.path@ == rel
    &&& a.ts@ == ts
    &&& a.ttl == ttl_for(full)
    &&& views(a.tags@) == if tags.len() == 0 && kind == "policy"@ {
        seq!["policy"@]
    } else {
        tags
    }
}

/// The index entry of one file: `rel` is its path under the root of the
/// index, `full` its whole path, `bytes` its content, `ts` the time of its
/// last change.
pub fn index_entry(
    rel: &str,
    full: &str,
    bytes: &[u8],
    ts: &str,
    git_commit: Option<String>,
    git_branch: Option<String>,
) -> (a: ResearchArtifact)
    ensures
        entry_for(a, rel@, full@, bytes@, ts@),
        a.git_commit == git_commit,
        a.git_branch == git_branch,
{
    let checksum = checksum_text(bytes);
    let kind = kind_for(full);
    let mut tags = front_matter_tags(bytes);
    if tags.len() == 0 && is_str(&chars_of(kind.as_str()), "policy") {
        tags.push("policy".to_owned());
        assert(views(tags@) =~= seq!["policy"@]);
    }
    let id = crate::text::concat3(rel, "#", checksum.as_str());
    ResearchArtifact {
        id,
        kind,
        path: rel.to_owned(),
        ts: ts.to_owned(),
        ttl: ttl_of(full),
        tags,
        checksum,
        git_commit,
        git_branch,
    }
}

} // verus!
