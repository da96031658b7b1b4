//! Scans of the recorded history: counting, ranking and reporting.

use vstd::prelude::*;
use crate::order::{
    is_text_before, lemma_text_before_asymmetric, lemma_text_before_irreflexive,
    lemma_text_before_total, lemma_text_before_transitive, ranked, sort_ranked, text_before,
    Ranked,
};
use crate::ambient::{regex_find, regex_first};
use crate::json::{Json, JsonView};
use crate::text::{
    ascii_lowercase, chars_of, contains, contains_text, opt_view, pieces, same_text, split,
    split_on, text_of, to_ascii_lowercase, trim, trimmed, views,
};
use super::requests::CapScanFile;

verus! {

/// How often a key was seen.
#[derive(Debug)]
pub struct CountedItem {
    pub key: String,
    pub count: u64,
}

/// What the recorded history shows of the capabilities in use.
#[derive(Debug)]
pub struct CodexCapabilitiesResp {
    pub generated_at: String,
    pub files_scanned: Vec<CapScanFile>,
    pub events_parsed: u64,
    pub strings_extracted: u64,
    pub top_hosts: Vec<CountedItem>,
    pub top_paths: Vec<CountedItem>,
    pub tool_signals: Vec<CountedItem>,
    pub samples: Vec<String>,
    pub next_actions: Vec<String>,
}

impl Ranked for CountedItem {
    /// The higher count comes first; of two keys with one count, the one that
    /// comes first in the order of strings.
    open spec fn precedes(&self, other: &Self) -> bool {
        self.count > other.count || (self.count == other.count && text_before(
            self.key@,
            other.key@,
        ))
    }

    fn comes_before(&self, other: &Self) -> (r: bool) {
        if self.count > other.count {
            true
        } else if self.count == other.count {
            let a = chars_of(self.key.as_str());
            let b = chars_of(other.key.as_str());
            is_text_before(&a, &b)
        } else {
            false
        }
    }

    proof fn lemma_asymmetric(a: &Self, b: &Self) {
        lemma_text_before_asymmetric(a.key@, b.key@);
    }

    proof fn lemma_negatively_transitive(a: &Self, b: &Self, c: &Self) {
        lemma_text_before_total(a.key@, b.key@);
        lemma_text_before_total(b.key@, c.key@);
        lemma_text_before_asymmetric(a.key@, b.key@);
        lemma_text_before_asymmetric(b.key@, c.key@);
        lemma_text_before_asymmetric(a.key@, c.key@);
        lemma_text_before_irreflexive(a.key@);
        lemma_text_before_irreflexive(c.key@);
        if c.precedes(a) && c.count == a.count {
            // c.key < a.key, while b.key <= a.key fails only if a.key < b.key
            if text_before(a.key@, b.key@) {
                lemma_text_before_transitive(c.key@, a.key@, b.key@);
            }
            if text_before(b.key@, c.key@) && text_before(c.key@, a.key@) {
                lemma_text_before_transitive(b.key@, c.key@, a.key@);
            }
        }
    }
}

/// `top` are the first `n` of `counts` ranked: the higher counts first,
/// equal counts by key.
pub open spec fn top_of(top: Seq<CountedItem>, counts: Seq<CountedItem>, n: usize) -> bool {
    exists|all: Seq<CountedItem>|
        #![trigger ranked(all)]
        {
            &&& ranked(all)
            &&& all.to_multiset() == counts.to_multiset()
            &&& top == if all.len() <= n {
                all
            } else {
                all.take(n as int)
            }
        }
}

/// The `n` highest counts: the counts ranked, the higher first and equal
/// counts by key, and of them the first `n`.
pub fn top_n(counts: Vec<CountedItem>, n: usize) -> (top: Vec<CountedItem>)
    ensures
        top_of(top@, counts@, n),
{
    let mut all = sort_ranked(counts);
    let ghost sorted = all@;
    if all.len() > n {
        all.truncate(n);
    }
    assert(ranked(sorted));
    all
}

/// The counts as pairs of key and count.
pub open spec fn counts_view(items: Seq<CountedItem>) -> Seq<(Seq<char>, u64)> {
    Seq::new(items.len(), |i: int| (items[i].key@, items[i].count))
}

/// The sum of two counts, or the highest count where the sum goes beyond it.
pub open spec fn capped_sum(a: u64, b: u64) -> u64 {
    if a + b > u64::MAX {
        u64::MAX
    } else {
        (a + b) as u64
    }
}

/// The counts with `n` added to the count of `key`: to the first count that
/// the key has, or as a new count at the end.
pub open spec fn with_count(counts: Seq<(Seq<char>, u64)>, key: Seq<char>, n: u64) -> Seq<
    (Seq<char>, u64),
>
    decreases counts.len(),
{
    if counts.len() == 0 {
        seq![(key, n)]
    } else if counts[0].0 == key {
        seq![(key, capped_sum(counts[0].1, n))] + counts.drop_first()
    } else {
        seq![counts[0]] + with_count(counts.drop_first(), key, n)
    }
}

/// What `with_count` yields for counts that hold no count of the key before
/// the position `k`.
pub proof fn lemma_with_count(counts: Seq<(Seq<char>, u64)>, key: Seq<char>, n: u64, k: int)
    requires
        0 <= k <= counts.len(),
        forall|j: int| 0 <= j < k ==> (#[trigger] counts[j]).0 != key,
        k < counts.len() ==> counts[k].0 == key,
    ensures
        with_count(counts, key, n) == if k < counts.len() {
            counts.update(k, (key, capped_sum(counts[k].1, n)))
        } else {
            counts.push((key, n))
        },
    decreases k,
{
    if k > 0 {
        let t = counts.drop_first();
        assert forall|j: int| 0 <= j < k - 1 implies (#[trigger] t[j]).0 != key by {
            assert(t[j] == counts[j + 1]);
        }
        lemma_with_count(t, key, n, k - 1);
        if k < counts.len() {
            assert(seq![counts[0]] + t.update(k - 1, (key, capped_sum(t[k - 1].1, n)))
                =~= counts.update(k, (key, capped_sum(counts[k].1, n))));
        } else {
            assert(seq![counts[0]] + t.push((key, n)) =~= counts.push((key, n)));
        }
    } else {
        if k < counts.len() {
            assert(seq![(key, capped_sum(counts[0].1, n))] + counts.drop_first()
                =~= counts.update(0, (key, capped_sum(counts[0].1, n))));
        } else {
            assert(seq![(key, n)] =~= counts.push((key, n)));
        }
    }
}

/// The counts of `dst` with those of `src` added to them, key by key, in the
/// order of `src`.
pub open spec fn merged(dst: Seq<(Seq<char>, u64)>, src: Seq<(Seq<char>, u64)>) -> Seq<
    (Seq<char>, u64),
>
    decreases src.len(),
{
    if src.len() == 0 {
        dst
    } else {
        with_count(merged(dst, src.drop_last()), src.last().0, src.last().1)
    }
}

/// Adds `n` to the count of the key `key`: to the count that the key has,
/// or as a new count at the end.
pub fn add_count(items: &mut Vec<CountedItem>, key: &str, n: u64)
    ensures
        counts_view(final(items)@) == with_count(counts_view(old(items)@), key@, n),
{
    let name = chars_of(key);
    let ghost before = counts_view(items@);
    let mut k: usize = 0;
    let mut found = false;
    while k < items.len() && !found
        invariant
            k <= items.len(),
            name@ == key@,
            before == counts_view(items@),
            forall|j: int| 0 <= j < k ==> (#[trigger] before[j]).0 != key@,
            found ==> k < items.len() && before[k as int].0 == key@,
        decreases items.len() - k + if found { 0int } else { 1int },
    {
        let other = chars_of(items[k].key.as_str());
        assert(before[k as int].0 == items@[k as int].key@);
        if same_text(&other, &name) {
            found = true;
        } else {
            k += 1;
        }
    }
    proof {
        lemma_with_count(before, key@, n, k as int);
    }
    if k < items.len() {
        let sum = items[k].count.saturating_add(n);
        assert(before[k as int].1 == items@[k as int].count);
        items.set(k, CountedItem { key: key.to_owned(), count: sum });
        assert(counts_view(items@) =~= before.update(k as int, (key@, sum)));
    } else {
        items.push(CountedItem { key: key.to_owned(), count: n });
        assert(counts_view(items@) =~= before.push((key@, n)));
    }
}

/// Adds the counts of `src` to those of `dst`, key by key, in the order of
/// `src`.
pub fn merge_counts(dst: &mut Vec<CountedItem>, src: Vec<CountedItem>)
    ensures
        counts_view(final(dst)@) == merged(counts_view(old(dst)@), counts_view(src@)),
{
    let ghost all = counts_view(src@);
    let mut i: usize = 0;
    assert(all.take(0) =~= Seq::<(Seq<char>, u64)>::empty());
    while i < src.len()
        invariant
            i <= src.len(),
            all == counts_view(src@),
            counts_view(dst@) == merged(counts_view(old(dst)@), all.take(i as int)),
        decreases src.len() - i,
    {
        proof {
            assert(all.take(i + 1).drop_last() =~= all.take(i as int));
            assert(all.take(i + 1).last() == (src@[i as int].key@, src@[i as int].count));
        }
        add_count(dst, src[i].key.as_str(), src[i].count);
        i += 1;
    }
    assert(all.take(src@.len() as int) =~= all);
}

/// The names that a list holds: its parts between commas, trimmed and in
/// lowercase, without the empty ones.
pub open spec fn named(parts: Seq<Seq<char>>) -> Seq<Seq<char>>
    decreases parts.len(),
{
    if parts.len() == 0 {
        Seq::<Seq<char>>::empty()
    } else {
        let name = ascii_lowercase(trimmed(parts.last()));
        if name.len() == 0 {
            named(parts.drop_last())
        } else {
            named(parts.drop_last()).push(name)
        }
    }
}

/// The texts of `names` without those that stand among them before.
pub open spec fn distinct(names: Seq<Seq<char>>) -> Seq<Seq<char>>
    decreases names.len(),
{
    if names.len() == 0 {
        Seq::<Seq<char>>::empty()
    } else if distinct(names.drop_last()).contains(names.last()) {
        distinct(names.drop_last())
    } else {
        distinct(names.drop_last()).push(names.last())
    }
}

/// The sources that a search covers: those that its list names, each once;
/// all three where it names none.
pub open spec fn sources_of(s: Option<Seq<char>>) -> Seq<Seq<char>> {
    let asked = match s {
        Some(list) => distinct(named(split(list, ','))),
        None => Seq::<Seq<char>>::empty(),
    };
    if asked.len() == 0 {
        seq!["archive"@, "rollouts"@, "utir"@]
    } else {
        asked
    }
}

/// Whether `name` stands among `names`.
fn holds(names: &Vec<String>, name: &Vec<char>) -> (r: bool)
    ensures
        r == views(names@).contains(name@),
{
    let mut i: usize = 0;
    while i < names.len()
        invariant
            i <= names.len(),
            forall|j: int| 0 <= j < i ==> views(names@)[j] != name@,
        decreases names.len() - i,
    {
        let other = chars_of(names[i].as_str());
        assert(views(names@)[i as int] == names@[i as int]@);
        if same_text(&other, name) {
            return true;
        }
        i += 1;
    }
    false
}

/// The sources that a search covers.
pub fn parse_sources(s: Option<&str>) -> (out: Vec<String>)
    ensures
        views(out@) == sources_of(
            match s {
                Some(list) => Some(list@),
                None => None,
            },
        ),
{
    let mut out: Vec<String> = Vec::new();
    if let Some(list) = s {
        let parts = split_on(&chars_of(list), ',');
        let ghost all = pieces(parts@);
        let mut i: usize = 0;
        assert(all.take(0) =~= Seq::<Seq<char>>::empty());
        assert(views(out@) =~= Seq::<Seq<char>>::empty());
        while i < parts.len()
            invariant
                i <= parts.len(),
                all == pieces(parts@),
                views(out@) == distinct(named(all.take(i as int))),
            decreases parts.len() - i,
        {
            let ghost before = views(out@);
            proof {
                assert(all.take(i + 1).drop_last() =~= all.take(i as int));
                assert(all.take(i + 1).last() == parts@[i as int]@);
            }
            let name = to_ascii_lowercase(&trim(&parts[i]));
            if name.len() > 0 {
                proof {
                    let names = named(all.take(i + 1));
                    assert(names.drop_last() =~= named(all.take(i as int)));
                    assert(names.last() == name@);
                }
                if !holds(&out, &name) {
                    out.push(text_of(&name));
                    assert(views(out@) =~= before.push(name@));
                }
            }
            i += 1;
        }
        assert(all.take(parts@.len() as int) =~= all);
    } else {
        assert(views(out@) =~= Seq::<Seq<char>>::empty());
    }
    if out.len() == 0 {
        out.push("archive".to_owned());
        out.push("rollouts".to_owned());
        out.push("utir".to_owned());
        assert(views(out@) =~= seq!["archive"@, "rollouts"@, "utir"@]);
    }
    out
}

/// The time stamp of an event: its field `ts`, else its field `timestamp`.
pub open spec fn event_ts(v: JsonView) -> Option<Seq<char>> {
    match v.text_at("ts"@) {
        Some(t) => Some(t),
        None => v.text_at("timestamp"@),
    }
}

/// The kind of an event: its field `type`, else `event`, else `kind`.
pub open spec fn event_kind(v: JsonView) -> Option<Seq<char>> {
    match v.text_at("type"@) {
        Some(t) => Some(t),
        None => match v.text_at("event"@) {
            Some(t) => Some(t),
            None => v.text_at("kind"@),
        },
    }
}

/// The time stamp and the kind of an event, where it has them.
pub fn try_extract_meta(v: &Json) -> (r: (Option<String>, Option<String>))
    ensures
        opt_view(r.0) == event_ts(v@),
        opt_view(r.1) == event_kind(v@),
{
    let ts = match v.text_at("ts") {
        Some(t) => Some(t),
        None => v.text_at("timestamp"),
    };
    let kind = match v.text_at("type") {
        Some(t) => Some(t),
        None => match v.text_at("event") {
            Some(t) => Some(t),
            None => v.text_at("kind"),
        },
    };
    (ts, kind)
}

/// A line matches a search: the regular expression matches it, where the
/// search has one that can be used (a line matches none that cannot);
/// else it holds the text that is searched for, with or without regard to
/// the case of ASCII letters.
pub open spec fn matches_search(
    line: Seq<char>,
    q: Seq<char>,
    case_sensitive: bool,
    pattern: Option<Seq<char>>,
) -> bool {
    match pattern {
        Some(p) => match regex_first(p, line) {
            Some(found) => found is Some,
            None => false,
        },
        None => if case_sensitive {
            contains_text(line, q)
        } else {
            contains_text(ascii_lowercase(line), ascii_lowercase(q))
        },
    }
}

/// Whether a line matches a search.
pub fn line_matches(line: &str, q: &str, case_sensitive: bool, pattern: Option<&str>) -> (r: bool)
    ensures
        r == matches_search(
            line@,
            q@,
            case_sensitive,
            match pattern {
                Some(p) => Some(p@),
                None => None,
            },
        ),
{
    if let Some(p) = pattern {
        return match regex_find(p, line) {
            Some(found) => found.is_some(),
            None => false,
        };
    }
    let l = chars_of(line);
    let needle = chars_of(q);
    if case_sensitive {
        contains(&l, &needle)
    } else {
        contains(&to_ascii_lowercase(&l), &to_ascii_lowercase(&needle))
    }
}

} // verus!
