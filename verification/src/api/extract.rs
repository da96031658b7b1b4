//! The texts that a structured value holds, gathered within a budget.

use vstd::prelude::*;
use crate::json::{entries_view, items_view, lookup, Json, JsonView};
use crate::text::{blank, chars_of, is_blank_str, is_str, views};
use super::redact::{redact, redacted};

verus! {

/// `key` is one of the keys whose texts are gathered first.
pub open spec fn preferred(key: Seq<char>) -> bool {
    key == "text"@ || key == "message"@ || key == "content"@ || key == "cmd"@ || key
        == "command"@ || key == "url"@ || key == "path"@
}

/// The value, where there is one, as a list of one.
pub open spec fn found(v: Option<JsonView>) -> Seq<JsonView> {
    match v {
        Some(x) => seq![x],
        None => Seq::<JsonView>::empty(),
    }
}

/// The values of the fields whose keys are not preferred, in the order of
/// the fields.
pub open spec fn other_values(entries: Seq<(Seq<char>, JsonView)>) -> Seq<JsonView>
    decreases entries.len(),
{
    if entries.len() == 0 {
        Seq::<JsonView>::empty()
    } else if preferred(entries.last().0) {
        other_values(entries.drop_last())
    } else {
        other_values(entries.drop_last()).push(entries.last().1)
    }
}

/// The values of an object in the order in which they are read: first those
/// under the keys `text`, `message`, `content`, `cmd`, `command`, `url` and
/// `path`, then those of the other fields in their order.
pub open spec fn ordered_values(entries: Seq<(Seq<char>, JsonView)>) -> Seq<JsonView> {
    found(lookup(entries, "text"@)) + found(lookup(entries, "message"@)) + found(
        lookup(entries, "content"@),
    ) + found(lookup(entries, "cmd"@)) + found(lookup(entries, "command"@)) + found(
        lookup(entries, "url"@),
    ) + found(lookup(entries, "path"@)) + other_values(entries)
}

/// What is left of a budget after `used` texts were gathered.
pub open spec fn left(budget: nat, used: nat) -> nat {
    if used >= budget {
        0
    } else {
        (budget - used) as nat
    }
}

/// The texts that a value holds, after redaction and without those that are
/// blank: at most `budget` of them, from at most `depth` levels. The texts
/// of a list come in its order, those of an object in the order in which
/// its values are read.
pub open spec fn gathered(v: JsonView, depth: nat, budget: nat) -> Seq<Seq<char>>
    decreases depth, 0nat,
{
    if budget == 0 || depth == 0 {
        Seq::<Seq<char>>::empty()
    } else {
        match v {
            JsonView::Text(s) => if blank(redacted(s)) {
                Seq::<Seq<char>>::empty()
            } else {
                seq![redacted(s)]
            },
            JsonView::List(items) => gathered_items(items, (depth - 1) as nat, budget),
            JsonView::Object(entries) => gathered_items(
                ordered_values(entries),
                (depth - 1) as nat,
                budget,
            ),
            _ => Seq::<Seq<char>>::empty(),
        }
    }
}

/// The texts that the values of a list hold, within the budget.
pub open spec fn gathered_items(items: Seq<JsonView>, depth: nat, budget: nat) -> Seq<Seq<char>>
    decreases depth, items.len() + 1,
{
    if items.len() == 0 || budget == 0 {
        Seq::<Seq<char>>::empty()
    } else {
        let first = gathered(items[0], depth, budget);
        first + gathered_items(items.drop_first(), depth, left(budget, first.len()))
    }
}

/// What a list of borrowed values holds.
pub open spec fn refs_view(values: Seq<&Json>) -> Seq<JsonView> {
    Seq::new(values.len(), |i: int| values[i]@)
}

/// Whether `key` is one of the preferred keys.
fn is_preferred(key: &str) -> (r: bool)
    ensures
        r == preferred(key@),
{
    let k = chars_of(key);
    is_str(&k, "text") || is_str(&k, "message") || is_str(&k, "content") || is_str(&k, "cmd")
        || is_str(&k, "command") || is_str(&k, "url") || is_str(&k, "path")
}

/// Appends the value of the field `key` of an object, where it has one.
fn push_found<'a>(values: &mut Vec<&'a Json>, object: &'a Json, key: &str)
    ensures
        refs_view(final(values)@) == refs_view(old(values)@) + found(object@.get(key@)),
{
    match object.get(key) {
        Some(v) => {
            values.push(v);
            assert(refs_view(values@) =~= refs_view(old(values)@) + seq![v@]);
        },
        None => {
            assert(refs_view(values@) =~= refs_view(old(values)@) + Seq::<JsonView>::empty());
        },
    }
}

/// The values of an object in the order in which they are read.
fn ordered<'a>(object: &'a Json, entries: &'a Vec<(String, Json)>) -> (values: Vec<&'a Json>)
    requires
        object@ == JsonView::Object(entries_view(entries@)),
    ensures
        refs_view(values@) == ordered_values(entries_view(entries@)),
{
    let ghost all = entries_view(entries@);
    let mut values: Vec<&'a Json> = Vec::new();
    assert(refs_view(values@) =~= Seq::<JsonView>::empty());
    push_found(&mut values, object, "text");
    push_found(&mut values, object, "message");
    push_found(&mut values, object, "content");
    push_found(&mut values, object, "cmd");
    push_found(&mut values, object, "command");
    push_found(&mut values, object, "url");
    push_found(&mut values, object, "path");
    let ghost head = refs_view(values@);
    assert(head =~= found(lookup(all, "text"@)) + found(lookup(all, "message"@)) + found(
        lookup(all, "content"@),
    ) + found(lookup(all, "cmd"@)) + found(lookup(all, "command"@)) + found(
        lookup(all, "url"@),
    ) + found(lookup(all, "path"@)));
    let mut i: usize = 0;
    assert(all.take(0) =~= Seq::<(Seq<char>, JsonView)>::empty());
    assert(head + Seq::<JsonView>::empty() =~= head);
    while i < entries.len()
        invariant
            i <= entries.len(),
            all == entries_view(entries@),
            refs_view(values@) == head + other_values(all.take(i as int)),
        decreases entries.len() - i,
    {
        let ghost before = refs_view(values@);
        proof {
            assert(all.take(i + 1).drop_last() =~= all.take(i as int));
            assert(all.take(i + 1).last() == (entries@[i as int].0@, entries@[i as int].1@));
        }
        if !is_preferred(entries[i].0.as_str()) {
            values.push(&entries[i].1);
            assert(refs_view(values@) =~= before.push(entries@[i as int].1@));
            assert(head + other_values(all.take(i as int)).push(entries@[i as int].1@) =~= (head
                + other_values(all.take(i as int))).push(entries@[i as int].1@));
        }
        i += 1;
    }
    assert(all.take(entries@.len() as int) =~= all);
    values
}

/// The items of a list, borrowed.
fn borrowed<'a>(items: &'a Vec<Json>) -> (values: Vec<&'a Json>)
    ensures
        refs_view(values@) == items_view(items@),
{
    let mut values: Vec<&'a Json> = Vec::new();
    let mut i: usize = 0;
    while i < items.len()
        invariant
            i <= items.len(),
            values@.len() == i,
            forall|j: int| 0 <= j < i ==> (#[trigger] values@[j])@ == items@[j]@,
        decreases items.len() - i,
    {
        values.push(&items[i]);
        i += 1;
    }
    assert(refs_view(values@) =~= items_view(items@));
    values
}

/// Gathers the texts that the values of a list hold into `out`, within the
/// budget.
fn gather_list(values: &Vec<&Json>, out: &mut Vec<String>, depth: usize, budget: &mut usize)
    ensures
        views(final(out)@) == views(old(out)@) + gathered_items(
            refs_view(values@),
            depth as nat,
            *old(budget) as nat,
        ),
        views(final(out)@).len() >= views(old(out)@).len(),
        *final(budget) == left(
            *old(budget) as nat,
            (views(final(out)@).len() - views(old(out)@).len()) as nat,
        ),
    decreases depth, 1nat,
{
    let ghost start = views(out@);
    let ghost b0 = *budget as nat;
    let ghost all = refs_view(values@);
    let mut i: usize = 0;
    assert(all.skip(0) =~= all);
    while i < values.len() && *budget > 0
        invariant
            i <= values.len(),
            all == refs_view(values@),
            views(out@).len() >= start.len(),
            *budget == left(b0, (views(out@).len() - start.len()) as nat),
            start + gathered_items(all, depth as nat, b0) == views(out@) + gathered_items(
                all.skip(i as int),
                depth as nat,
                *budget as nat,
            ),
        decreases values.len() - i,
    {
        let ghost before = views(out@);
        let ghost bb = *budget as nat;
        let ghost rest = gathered_items(all.skip(i + 1), depth as nat, left(
            bb,
            gathered(values@[i as int]@, depth as nat, bb).len(),
        ));
        proof {
            assert(all.skip(i as int)[0] == values@[i as int]@);
            assert(all.skip(i as int).drop_first() =~= all.skip(i + 1));
        }
        extract_strings_limited(values[i], out, depth, budget);
        proof {
            let first = gathered(values@[i as int]@, depth as nat, bb);
            assert((before + first) + rest =~= before + (first + rest));
        }
        i += 1;
    }
    proof {
        let tail = gathered_items(all.skip(i as int), depth as nat, *budget as nat);
        assert(tail =~= Seq::<Seq<char>>::empty()) by {
            if i >= values.len() {
                assert(all.skip(i as int).len() == 0);
            }
        }
        assert(views(out@) + tail =~= views(out@));
    }
}

/// Gathers the texts that a value holds into `out`, within the budget: each
/// text that is gathered takes one from the budget.
pub fn extract_strings_limited(v: &Json, out: &mut Vec<String>, depth: usize, budget: &mut usize)
    ensures
        views(final(out)@) == views(old(out)@) + gathered(
            v@,
            depth as nat,
            *old(budget) as nat,
        ),
        views(final(out)@).len() >= views(old(out)@).len(),
        *final(budget) == left(
            *old(budget) as nat,
            (views(final(out)@).len() - views(old(out)@).len()) as nat,
        ),
    decreases depth, 0nat,
{
    let ghost start = views(out@);
    if *budget == 0 || depth == 0 {
        assert(start + Seq::<Seq<char>>::empty() =~= start);
        return ;
    }
    match v {
        Json::Text(s) => {
            let r = redact(s.as_str());
            if !is_blank_str(r.as_str()) {
                out.push(r);
                *budget = *budget - 1;
                assert(views(out@) =~= start + seq![redacted(s@)]);
            } else {
                assert(start + Seq::<Seq<char>>::empty() =~= start);
            }
        },
        Json::List(items) => {
            let values = borrowed(items);
            gather_list(&values, out, depth - 1, budget);
        },
        Json::Object(entries) => {
            let values = ordered(v, entries);
            gather_list(&values, out, depth - 1, budget);
        },
        _ => {
            assert(start + Seq::<Seq<char>>::empty() =~= start);
        },
    }
}

} // verus!
