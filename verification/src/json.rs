//! Structured values: the free-form input of a goal and the evidence of a run.
//!
//! A value is read through its view, in which text is a sequence of
//! characters and every whole number is an `int`. Numbers with a fraction are
//! levels, counted in millionths. The entries of an object keep the order in
//! which they were given; where a key occurs twice the first entry counts.

use vstd::prelude::*;
use crate::text::{chars_of, same_text};

verus! {

/// A structured value.
#[derive(Debug)]
pub enum Json {
    Null,
    Bool(bool),
    /// A whole number.
    Int(i64),
    /// A whole number, used for those above the range of `Int`.
    Nat(u64),
    /// A number with a fraction, in millionths.
    Real(i64),
    Text(String),
    List(Vec<Json>),
    Object(Vec<(String, Json)>),
}

/// What a structured value holds.
pub enum JsonView {
    Null,
    Bool(bool),
    Int(int),
    Real(int),
    Text(Seq<char>),
    List(Seq<JsonView>),
    Object(Seq<(Seq<char>, JsonView)>),
}

/// The value of the first entry of `entries` under `key`.
pub open spec fn lookup(entries: Seq<(Seq<char>, JsonView)>, key: Seq<char>) -> Option<JsonView>
    decreases entries.len(),
{
    if entries.len() == 0 {
        None
    } else if entries[0].0 == key {
        Some(entries[0].1)
    } else {
        lookup(entries.drop_first(), key)
    }
}

/// The value under a key is that of the first entry with the key.
pub proof fn lemma_lookup_at(entries: Seq<(Seq<char>, JsonView)>, key: Seq<char>, k: int)
    requires
        0 <= k < entries.len(),
        forall|j: int| 0 <= j < k ==> (#[trigger] entries[j]).0 != key,
        entries[k].0 == key,
    ensures
        lookup(entries, key) == Some(entries[k].1),
    decreases k,
{
    if k > 0 {
        let rest = entries.drop_first();
        assert forall|j: int| 0 <= j < k - 1 implies (#[trigger] rest[j]).0 != key by {
            assert(rest[j] == entries[j + 1]);
        }
        assert(rest[k - 1] == entries[k]);
        lemma_lookup_at(rest, key, k - 1);
    }
}

impl JsonView {
    /// The field `key` of an object; nothing for any other value.
    pub open spec fn get(self, key: Seq<char>) -> Option<JsonView> {
        match self {
            JsonView::Object(entries) => lookup(entries, key),
            _ => None,
        }
    }

    pub open spec fn as_text(self) -> Option<Seq<char>> {
        match self {
            JsonView::Text(s) => Some(s),
            _ => None,
        }
    }

    pub open spec fn as_bool(self) -> Option<bool> {
        match self {
            JsonView::Bool(b) => Some(b),
            _ => None,
        }
    }

    /// The whole number, where it fits an `i64`.
    pub open spec fn as_i64(self) -> Option<i64> {
        match self {
            JsonView::Int(n) => if i64::MIN <= n <= i64::MAX {
                Some(n as i64)
            } else {
                None
            },
            _ => None,
        }
    }

    /// The whole number, where it fits a `u64`.
    pub open spec fn as_u64(self) -> Option<u64> {
        match self {
            JsonView::Int(n) => if 0 <= n <= u64::MAX {
                Some(n as u64)
            } else {
                None
            },
            _ => None,
        }
    }

    /// The number as a level: a whole number times a million, where that fits
    /// an `i64`.
    pub open spec fn as_level(self) -> Option<i64> {
        match self {
            JsonView::Real(x) => if i64::MIN <= x <= i64::MAX {
                Some(x as i64)
            } else {
                None
            },
            JsonView::Int(n) => if i64::MIN <= n * 1_000_000 <= i64::MAX {
                Some((n * 1_000_000) as i64)
            } else {
                None
            },
            _ => None,
        }
    }

    pub open spec fn as_list(self) -> Option<Seq<JsonView>> {
        match self {
            JsonView::List(items) => Some(items),
            _ => None,
        }
    }

    /// The text of the field `key`.
    pub open spec fn text_at(self, key: Seq<char>) -> Option<Seq<char>> {
        match self.get(key) {
            Some(v) => v.as_text(),
            None => None,
        }
    }

    /// The truth value of the field `key`.
    pub open spec fn bool_at(self, key: Seq<char>) -> Option<bool> {
        match self.get(key) {
            Some(v) => v.as_bool(),
            None => None,
        }
    }

    /// The whole number of the field `key`, where it fits a `u64`.
    pub open spec fn u64_at(self, key: Seq<char>) -> Option<u64> {
        match self.get(key) {
            Some(v) => v.as_u64(),
            None => None,
        }
    }

    /// The whole number of the field `key`, where it fits an `i64`.
    pub open spec fn i64_at(self, key: Seq<char>) -> Option<i64> {
        match self.get(key) {
            Some(v) => v.as_i64(),
            None => None,
        }
    }

    /// The number of the field `key` as a level.
    pub open spec fn level_at(self, key: Seq<char>) -> Option<i64> {
        match self.get(key) {
            Some(v) => v.as_level(),
            None => None,
        }
    }
}

/// The views of the entries of an object.
pub open spec fn entries_view(entries: Seq<(String, Json)>) -> Seq<(Seq<char>, JsonView)>
    decreases entries,
{
    Seq::new(
        entries.len(),
        |i: int|
            if 0 <= i < entries.len() {
                (entries[i].0@, entries[i].1.view())
            } else {
                (Seq::<char>::empty(), JsonView::Null)
            },
    )
}

/// The views of the items of a list.
pub open spec fn items_view(items: Seq<Json>) -> Seq<JsonView>
    decreases items,
{
    Seq::new(
        items.len(),
        |i: int|
            if 0 <= i < items.len() {
                items[i].view()
            } else {
                JsonView::Null
            },
    )
}

impl View for Json {
    type V = JsonView;

    open spec fn view(&self) -> JsonView
        decreases self,
    {
        match self {
            Json::Null => JsonView::Null,
            Json::Bool(b) => JsonView::Bool(*b),
            Json::Int(n) => JsonView::Int(*n as int),
            Json::Nat(n) => JsonView::Int(*n as int),
            Json::Real(x) => JsonView::Real(*x as int),
            Json::Text(s) => JsonView::Text(s@),
            Json::List(items) => JsonView::List(items_view(items@)),
            Json::Object(entries) => JsonView::Object(entries_view(entries@)),
        }
    }
}

impl Json {
    /// The field `key` of an object; nothing for any other value.
    pub fn get(&self, key: &str) -> (r: Option<&Json>)
        ensures
            match r {
                Some(v) => self@.get(key@) == Some(v@),
                None => self@.get(key@) is None,
            },
    {
        match self {
            Json::Object(entries) => {
                let k = chars_of(key);
                let ghost all = entries_view(entries@);
                let mut i: usize = 0;
                assert(all.skip(0) =~= all);
                while i < entries.len()
                    invariant
                        i <= entries.len(),
                        all == entries_view(entries@),
                        self@ == JsonView::Object(all),
                        k@ == key@,
                        lookup(all, key@) == lookup(all.skip(i as int), key@),
                    decreases entries.len() - i,
                {
                    let name = chars_of(entries[i].0.as_str());
                    proof {
                        assert(all.skip(i as int)[0] == all[i as int]);
                        assert(all.skip(i as int).drop_first() =~= all.skip(i + 1));
                        assert(all[i as int] == (entries@[i as int].0@, entries@[i as int].1@));
                    }
                    if same_text(&name, &k) {
                        assert(lookup(all.skip(i as int), key@) == Some(all[i as int].1));
                        return Some(&entries[i].1);
                    }
                    i += 1;
                }
                None
            },
            _ => None,
        }
    }

    pub fn as_str(&self) -> (r: Option<&str>)
        ensures
            match r {
                Some(s) => self@.as_text() == Some(s@),
                None => self@.as_text() is None,
            },
    {
        match self {
            Json::Text(s) => Some(s.as_str()),
            _ => None,
        }
    }

    pub fn as_bool(&self) -> (r: Option<bool>)
        ensures
            r == self@.as_bool(),
    {
        match self {
            Json::Bool(b) => Some(*b),
            _ => None,
        }
    }

    /// The whole number, where it fits an `i64`.
    pub fn as_i64(&self) -> (r: Option<i64>)
        ensures
            r == self@.as_i64(),
    {
        match self {
            Json::Int(n) => Some(*n),
            Json::Nat(n) => if *n <= 0x7fff_ffff_ffff_ffff {
                Some(*n as i64)
            } else {
                None
            },
            _ => None,
        }
    }

    /// The whole number, where it fits a `u64`.
    pub fn as_u64(&self) -> (r: Option<u64>)
        ensures
            r == self@.as_u64(),
    {
        match self {
            Json::Int(n) => if *n >= 0 {
                Some(*n as u64)
            } else {
                None
            },
            Json::Nat(n) => Some(*n),
            _ => None,
        }
    }

    /// The number as a level: a whole number times a million, where that fits
    /// an `i64`.
    pub fn as_level(&self) -> (r: Option<i64>)
        ensures
            r == self@.as_level(),
    {
        match self {
            Json::Real(x) => Some(*x),
            Json::Int(n) => if -9_223_372_036_854 <= *n && *n <= 9_223_372_036_854 {
                Some(*n * 1_000_000)
            } else {
                None
            },
            Json::Nat(n) => if *n <= 9_223_372_036_854 {
                Some((*n as i64) * 1_000_000)
            } else {
                None
            },
            _ => None,
        }
    }

    pub fn as_array(&self) -> (r: Option<&Vec<Json>>)
        ensures
            match r {
                Some(items) => self@.as_list() == Some(items_view(items@)),
                None => self@.as_list() is None,
            },
    {
        match self {
            Json::List(items) => Some(items),
            _ => None,
        }
    }

    /// The text of the field `key`.
    pub fn str_at(&self, key: &str) -> (r: Option<&str>)
        ensures
            match r {
                Some(s) => self@.text_at(key@) == Some(s@),
                None => self@.text_at(key@) is None,
            },
    {
        match self.get(key) {
            Some(v) => v.as_str(),
            None => None,
        }
    }

    /// The truth value of the field `key`.
    pub fn bool_at(&self, key: &str) -> (r: Option<bool>)
        ensures
            r == self@.bool_at(key@),
    {
        match self.get(key) {
            Some(v) => v.as_bool(),
            None => None,
        }
    }

    /// The whole number of the field `key`, where it fits a `u64`.
    pub fn u64_at(&self, key: &str) -> (r: Option<u64>)
        ensures
            r == self@.u64_at(key@),
    {
        match self.get(key) {
            Some(v) => v.as_u64(),
            None => None,
        }
    }

    /// The whole number of the field `key`, where it fits an `i64`.
    pub fn i64_at(&self, key: &str) -> (r: Option<i64>)
        ensures
            r == self@.i64_at(key@),
    {
        match self.get(key) {
            Some(v) => v.as_i64(),
            None => None,
        }
    }

    /// The number of the field `key` as a level.
    pub fn level_at(&self, key: &str) -> (r: Option<i64>)
        ensures
            r == self@.level_at(key@),
    {
        match self.get(key) {
            Some(v) => v.as_level(),
            None => None,
        }
    }

    /// A text value.
    pub fn text(s: &str) -> (r: Json)
        ensures
            r@ == JsonView::Text(s@),
    {
        Json::Text(s.to_owned())
    }
}

/// One entry of an object: the key `key` with the value `value`.
pub fn entry(key: &str, value: Json) -> (r: (String, Json))
    ensures
        r.0@ == key@,
        r.1 == value,
{
    (key.to_owned(), value)
}

/// The text of the field `key`, or `default` where there is none.
pub open spec fn text_or(v: JsonView, key: Seq<char>, default: Seq<char>) -> Seq<char> {
    match v.text_at(key) {
        Some(s) => s,
        None => default,
    }
}

/// The truth value of the field `key`, or `default` where there is none.
pub open spec fn flag_or(v: JsonView, key: Seq<char>, default: bool) -> bool {
    match v.bool_at(key) {
        Some(b) => b,
        None => default,
    }
}

/// The count in the field `key`, or `default` where there is none; a count
/// that the machine cannot hold stands for the largest it can.
pub open spec fn count_or(v: JsonView, key: Seq<char>, default: usize) -> usize {
    match v.u64_at(key) {
        Some(n) => if n <= usize::MAX {
            n as usize
        } else {
            usize::MAX
        },
        None => default,
    }
}

impl Json {
    /// The text of the field `key` as a string of its own.
    pub fn text_at(&self, key: &str) -> (r: Option<String>)
        ensures
            match r {
                Some(s) => self@.text_at(key@) == Some(s@),
                None => self@.text_at(key@) is None,
            },
    {
        match self.str_at(key) {
            Some(s) => Some(s.to_owned()),
            None => None,
        }
    }

    /// The text of the field `key`, or `default` where there is none.
    pub fn text_or(&self, key: &str, default: &str) -> (r: String)
        ensures
            r@ == text_or(self@, key@, default@),
    {
        match self.str_at(key) {
            Some(s) => s.to_owned(),
            None => default.to_owned(),
        }
    }

    /// The truth value of the field `key`, or `default` where there is none.
    pub fn flag_or(&self, key: &str, default: bool) -> (r: bool)
        ensures
            r == flag_or(self@, key@, default),
    {
        match self.bool_at(key) {
            Some(b) => b,
            None => default,
        }
    }

    /// The count in the field `key`, or `default` where there is none.
    pub fn count_or(&self, key: &str, default: usize) -> (r: usize)
        ensures
            r == count_or(self@, key@, default),
    {
        match self.u64_at(key) {
            Some(n) => if n <= usize::MAX as u64 {
                n as usize
            } else {
                usize::MAX
            },
            None => default,
        }
    }
}

/// Appends the entry `key`: `value` to the entries of an object.
pub fn put(entries: &mut Vec<(String, Json)>, key: &str, value: Json)
    ensures
        entries_view(final(entries)@) == entries_view(old(entries)@).push((key@, value@)),
{
    entries.push((key.to_owned(), value));
    assert(entries_view(entries@) =~= entries_view(old(entries)@).push((key@, value@)));
}

impl Json {
    /// A copy of the value.
    pub fn copy(&self) -> (r: Json)
        ensures
            r@ == self@,
        decreases self,
    {
        match self {
            Json::Null => Json::Null,
            Json::Bool(b) => Json::Bool(*b),
            Json::Int(n) => Json::Int(*n),
            Json::Nat(n) => Json::Nat(*n),
            Json::Real(x) => Json::Real(*x),
            Json::Text(s) => Json::Text(s.clone()),
            Json::List(items) => {
                let mut out: Vec<Json> = Vec::new();
                let mut i: usize = 0;
                while i < items.len()
                    invariant
                        i <= items.len(),
                        out@.len() == i,
                        forall|j: int| 0 <= j < i ==> (#[trigger] out@[j])@ == items@[j]@,
                        forall|j: int|
                            0 <= j < items@.len() ==> decreases_to!(self => #[trigger] items@[j]),
                    decreases items.len() - i,
                {
                    out.push(items[i].copy());
                    i += 1;
                }
                assert(items_view(out@) =~= items_view(items@));
                Json::List(out)
            },
            Json::Object(entries) => {
                let mut out: Vec<(String, Json)> = Vec::new();
                let mut i: usize = 0;
                while i < entries.len()
                    invariant
                        i <= entries.len(),
                        out@.len() == i,
                        forall|j: int|
                            0 <= j < i ==> (#[trigger] out@[j]).0@ == entries@[j].0@ && out@[j].1@
                                == entries@[j].1@,
                        forall|j: int|
                            0 <= j < entries@.len() ==> decreases_to!(self => (
                                #[trigger] entries@[j]).1),
                    decreases entries.len() - i,
                {
                    out.push((entries[i].0.clone(), entries[i].1.copy()));
                    i += 1;
                }
                assert(entries_view(out@) =~= entries_view(entries@));
                Json::Object(out)
            },
        }
    }
}

impl JsonView {
    /// The item `i` of a list; nothing for any other value.
    pub open spec fn item(self, i: int) -> Option<JsonView> {
        match self {
            JsonView::List(items) => if 0 <= i < items.len() {
                Some(items[i])
            } else {
                None
            },
            _ => None,
        }
    }
}

impl Json {
    /// The item `i` of a list; nothing for any other value.
    pub fn item(&self, i: usize) -> (r: Option<&Json>)
        ensures
            match r {
                Some(v) => self@.item(i as int) == Some(v@),
                None => self@.item(i as int) is None,
            },
    {
        match self {
            Json::List(items) => if i < items.len() {
                assert(items_view(items@)[i as int] == items@[i as int]@);
                Some(&items[i])
            } else {
                None
            },
            _ => None,
        }
    }
}

/// The entries of an object with the field `key` set to `value`: in place of
/// the first entry under the key, or at the end.
pub open spec fn with_field(
    entries: Seq<(Seq<char>, JsonView)>,
    key: Seq<char>,
    value: JsonView,
) -> Seq<(Seq<char>, JsonView)>
    decreases entries.len(),
{
    if entries.len() == 0 {
        seq![(key, value)]
    } else if entries[0].0 == key {
        seq![(key, value)] + entries.drop_first()
    } else {
        seq![entries[0]] + with_field(entries.drop_first(), key, value)
    }
}

/// What `with_field` yields for entries that hold no entry under the key
/// before the position `k`.
pub proof fn lemma_with_field(
    entries: Seq<(Seq<char>, JsonView)>,
    key: Seq<char>,
    value: JsonView,
    k: int,
)
    requires
        0 <= k <= entries.len(),
        forall|j: int| 0 <= j < k ==> (#[trigger] entries[j]).0 != key,
        k < entries.len() ==> entries[k].0 == key,
    ensures
        with_field(entries, key, value) == if k < entries.len() {
            entries.update(k, (key, value))
        } else {
            entries.push((key, value))
        },
    decreases k,
{
    if k > 0 {
        let t = entries.drop_first();
        assert forall|j: int| 0 <= j < k - 1 implies (#[trigger] t[j]).0 != key by {
            assert(t[j] == entries[j + 1]);
        }
        lemma_with_field(t, key, value, k - 1);
        if k < entries.len() {
            assert(seq![entries[0]] + t.update(k - 1, (key, value)) =~= entries.update(
                k,
                (key, value),
            ));
        } else {
            assert(seq![entries[0]] + t.push((key, value)) =~= entries.push((key, value)));
        }
    } else {
        if k < entries.len() {
            assert(seq![(key, value)] + entries.drop_first() =~= entries.update(0, (key, value)));
        } else {
            assert(seq![(key, value)] =~= entries.push((key, value)));
        }
    }
}

impl JsonView {
    /// The object with the field `key` set to `value`; any other value as it
    /// is.
    pub open spec fn with(self, key: Seq<char>, value: JsonView) -> JsonView {
        match self {
            JsonView::Object(entries) => JsonView::Object(with_field(entries, key, value)),
            other => other,
        }
    }
}

/// The object `v` with the field `key` set to `value`: in place of what the
/// field held, or as a new field at the end. A value that is no object is
/// left as it is.
pub fn set_field(v: Json, key: &str, value: Json) -> (r: Json)
    ensures
        r@ == v@.with(key@, value@),
{
    match v {
        Json::Object(entries) => {
            let mut entries = entries;
            let ghost before = entries_view(entries@);
            let name = chars_of(key);
            let mut k: usize = 0;
            let mut found = false;
            while k < entries.len() && !found
                invariant
                    k <= entries.len(),
                    name@ == key@,
                    before == entries_view(entries@),
                    forall|j: int| 0 <= j < k ==> (#[trigger] before[j]).0 != key@,
                    found ==> k < entries.len() && before[k as int].0 == key@,
                decreases entries.len() - k + if found { 0int } else { 1int },
            {
                let other = chars_of(entries[k].0.as_str());
                assert(before[k as int].0 == entries@[k as int].0@);
                if same_text(&other, &name) {
                    found = true;
                } else {
                    k += 1;
                }
            }
            proof {
                lemma_with_field(before, key@, value@, k as int);
            }
            if k < entries.len() {
                entries.set(k, (key.to_owned(), value));
                assert(entries_view(entries@) =~= before.update(k as int, (key@, value@)));
            } else {
                entries.push((key.to_owned(), value));
                assert(entries_view(entries@) =~= before.push((key@, value@)));
            }
            Json::Object(entries)
        },
        other => other,
    }
}

} // verus!
