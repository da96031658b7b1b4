//! Settings read from the text of a `.env` file: one `KEY=value` per line.

use crate::text::{
    chars_of, contains_char, first_index, index_of, lines, lines_of, pieces, slice, text_of, trim,
    trimmed,
};
use vstd::prelude::*;

verus! {

/// A value without the pair of double or single quotes around it, where it
/// stands between such a pair.
pub open spec fn unquoted(v: Seq<char>) -> Seq<char> {
    if v.len() >= 2 && ((v[0] == '"' && v.last() == '"') || (v[0] == '\'' && v.last() == '\'')) {
        v.subrange(1, v.len() - 1)
    } else {
        v
    }
}

/// The setting that one line gives. A blank line, a line that begins with
/// `#` and a line without `=` give none; nor does a line whose key, the
/// part before the first `=`, or whose value, the part behind it, is empty
/// once the white space and the quotes around the value are taken away.
pub open spec fn dotenv_setting(line: Seq<char>) -> Option<(Seq<char>, Seq<char>)> {
    let s = trimmed(line);
    let at = first_index(s, '=');
    if s.len() == 0 || s[0] == '#' || !contains_char(s, '=') {
        None
    } else {
        let key = trimmed(s.subrange(0, at));
        let value = unquoted(trimmed(s.subrange(at + 1, s.len() as int)));
        if key.len() == 0 || value.len() == 0 {
            None
        } else {
            Some((key, value))
        }
    }
}

/// The settings that the lines give, in the order of the lines.
pub open spec fn dotenv_settings(lines: Seq<Seq<char>>) -> Seq<(Seq<char>, Seq<char>)>
    decreases lines.len(),
{
    if lines.len() == 0 {
        Seq::<(Seq<char>, Seq<char>)>::empty()
    } else {
        match dotenv_setting(lines.last()) {
            Some(pair) => dotenv_settings(lines.drop_last()).push(pair),
            None => dotenv_settings(lines.drop_last()),
        }
    }
}

/// The characters of a key and of its value.
pub open spec fn pair_view(p: (String, String)) -> (Seq<char>, Seq<char>) {
    (p.0@, p.1@)
}

/// The characters of each key and value.
pub open spec fn pairs_view(p: Seq<(String, String)>) -> Seq<(Seq<char>, Seq<char>)> {
    Seq::new(p.len(), |i: int| pair_view(p[i]))
}

/// The setting of a line, if it gives one.
pub open spec fn setting_view(r: Option<(String, String)>) -> Option<(Seq<char>, Seq<char>)> {
    match r {
        Some(p) => Some(pair_view(p)),
        None => None,
    }
}

/// A value without the quotes around it.
pub fn unquote(v: &Vec<char>) -> (r: Vec<char>)
    ensures
        r@ == unquoted(v@),
{
    let n = v.len();
    if n >= 2 && ((v[0] == '"' && v[n - 1] == '"') || (v[0] == '\'' && v[n - 1] == '\'')) {
        slice(v, 1, n - 1)
    } else {
        v.clone()
    }
}

/// The setting that one line gives.
pub fn dotenv_setting_of(line: &Vec<char>) -> (r: Option<(String, String)>)
    ensures
        setting_view(r) == dotenv_setting(line@),
{
    let s = trim(line);
    if s.len() == 0 || s[0] == '#' {
        return None;
    }
    let at = index_of(&s, '=');
    if at >= s.len() {
        return None;
    }
    assert(contains_char(s@, '=')) by {
        assert(s@[at as int] == '=');
    }
    let key = trim(&slice(&s, 0, at));
    let value = unquote(&trim(&slice(&s, at + 1, s.len())));
    if key.len() == 0 || value.len() == 0 {
        None
    } else {
        Some((text_of(&key), text_of(&value)))
    }
}

/// The settings in the text of a `.env` file, in the order of its lines.
pub fn dotenv_pairs(text: &str) -> (pairs: Vec<(String, String)>)
    ensures
        pairs_view(pairs@) == dotenv_settings(lines_of(text@)),
{
    let all = lines(&chars_of(text));
    let mut pairs: Vec<(String, String)> = Vec::new();
    let mut i: usize = 0;
    assert(pairs_view(pairs@) =~= dotenv_settings(pieces(all@).take(0)));
    while i < all.len()
        invariant
            i <= all.len(),
            pieces(all@) == lines_of(text@),
            pairs_view(pairs@) == dotenv_settings(pieces(all@).take(i as int)),
        decreases all.len() - i,
    {
        let ghost before = pairs_view(pairs@);
        let found = dotenv_setting_of(&all[i]);
        proof {
            let upto = pieces(all@).take(i + 1);
            assert(upto.drop_last() =~= pieces(all@).take(i as int));
            assert(upto.last() == all@[i as int]@);
        }
        match found {
            Some(pair) => {
                pairs.push(pair);
                assert(pairs_view(pairs@) =~= before.push(pair_view(pair)));
            },
            None => {},
        }
        i += 1;
    }
    assert(pieces(all@).take(all.len() as int) =~= pieces(all@));
    pairs
}

} // verus!
