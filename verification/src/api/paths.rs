//! What requests say by their paths and queries: the run and the user they
//! are about, and the host and path of an address.

use vstd::prelude::*;
use crate::text::{
    chars_of, first_index, index_of, is_str, join_path, joined, opt_view, pieces, segments,
    segments_of, slice, split, split_on, text_of,
};
use super::{is_safe_segment, safe_segment};

verus! {

/// The key of a pair of a query: what stands before its first `=`.
pub open spec fn pair_key(part: Seq<char>) -> Seq<char> {
    let k = first_index(part, '=');
    if 0 <= k <= part.len() {
        part.take(k)
    } else {
        part
    }
}

/// The value of a pair of a query: what stands behind its first `=`, empty
/// where it has none.
pub open spec fn pair_value(part: Seq<char>) -> Seq<char> {
    let k = first_index(part, '=');
    if 0 <= k < part.len() {
        part.skip(k + 1)
    } else {
        Seq::<char>::empty()
    }
}

/// The value of the first pair of `parts` that gives a safe run identifier
/// under the key `run_id`.
pub open spec fn first_run_id(parts: Seq<Seq<char>>) -> Option<Seq<char>>
    decreases parts.len(),
{
    if parts.len() == 0 {
        None
    } else if pair_key(parts[0]) == "run_id"@ && safe_segment(pair_value(parts[0])) {
        Some(pair_value(parts[0]))
    } else {
        first_run_id(parts.drop_first())
    }
}

/// The run that a query names: the value of its first pair under the key
/// `run_id` that is a safe segment.
pub open spec fn run_id_in_query(q: Seq<char>) -> Option<Seq<char>> {
    first_run_id(split(q, '&'))
}

/// The run that a query names.
pub fn parse_run_id_from_query(q: &str) -> (r: Option<String>)
    ensures
        opt_view(r) == run_id_in_query(q@),
{
    let parts = split_on(&chars_of(q), '&');
    let ghost all = pieces(parts@);
    let mut i: usize = 0;
    assert(all.skip(0) =~= all);
    while i < parts.len()
        invariant
            i <= parts.len(),
            all == pieces(parts@),
            all == split(q@, '&'),
            first_run_id(all) == first_run_id(all.skip(i as int)),
        decreases parts.len() - i,
    {
        let part = &parts[i];
        proof {
            assert(all.skip(i as int)[0] == part@);
            assert(all.skip(i as int).drop_first() =~= all.skip(i + 1));
        }
        let k = index_of(part, '=');
        let key = slice(part, 0, k);
        assert(key@ =~= pair_key(part@));
        if is_str(&key, "run_id") {
            let value = if k < part.len() {
                slice(part, k + 1, part.len())
            } else {
                Vec::new()
            };
            assert(value@ =~= pair_value(part@));
            let v = text_of(&value);
            if is_safe_segment(v.as_str()) {
                assert(first_run_id(all.skip(i as int)) == Some(pair_value(part@)));
                return Some(v);
            }
        }
        i += 1;
    }
    None
}

/// The run that a path leads to: the third segment of a path under
/// `runs/receipts`, `runs/wiki` or `runs/graphs`, where it is a safe segment.
pub open spec fn run_id_in_path(path: Seq<char>) -> Option<Seq<char>> {
    let parts = segments(path);
    if parts.len() >= 3 && parts[0] == "runs"@ && (parts[1] == "receipts"@ || parts[1] == "wiki"@
        || parts[1] == "graphs"@) && safe_segment(parts[2]) {
        Some(parts[2])
    } else {
        None
    }
}

/// The run that a path leads to.
pub fn parse_run_id_from_path(path: &str) -> (r: Option<String>)
    ensures
        opt_view(r) == run_id_in_path(path@),
{
    let parts = segments_of(path);
    proof {
        assert(pieces(parts@).len() == parts@.len());
        if parts@.len() >= 3 {
            assert(pieces(parts@)[0] == parts@[0]@);
            assert(pieces(parts@)[1] == parts@[1]@);
            assert(pieces(parts@)[2] == parts@[2]@);
        }
    }
    if parts.len() >= 3 && is_str(&parts[0], "runs") && (is_str(&parts[1], "receipts") || is_str(
        &parts[1],
        "wiki",
    ) || is_str(&parts[1], "graphs")) {
        let id = text_of(&parts[2]);
        if is_safe_segment(id.as_str()) {
            return Some(id);
        }
    }
    None
}

/// The user that a path leads to: the second segment of a path under
/// `users`, where it is a safe segment.
pub open spec fn user_id_in_path(path: Seq<char>) -> Option<Seq<char>> {
    let parts = segments(path);
    if parts.len() >= 2 && parts[0] == "users"@ && safe_segment(parts[1]) {
        Some(parts[1])
    } else {
        None
    }
}

/// The user that a path leads to.
pub fn parse_user_id_from_path(path: &str) -> (r: Option<String>)
    ensures
        opt_view(r) == user_id_in_path(path@),
{
    let parts = segments_of(path);
    proof {
        assert(pieces(parts@).len() == parts@.len());
        if parts@.len() >= 2 {
            assert(pieces(parts@)[0] == parts@[0]@);
            assert(pieces(parts@)[1] == parts@[1]@);
        }
    }
    if parts.len() >= 2 && is_str(&parts[0], "users") {
        let id = text_of(&parts[1]);
        if is_safe_segment(id.as_str()) {
            return Some(id);
        }
    }
    None
}

/// The file of a thread of a user under the root directory `root`.
pub open spec fn thread_file(root: Seq<char>, user_id: Seq<char>, thread: Seq<char>) -> Seq<char> {
    joined(joined(joined(joined(root, "users"@), user_id), "threads"@), thread + ".jsonl"@)
}

/// The file of a thread of a user; none where the user or the thread is no
/// safe segment.
pub fn thread_path(root: &str, user_id: &str, thread: &str) -> (r: Option<String>)
    ensures
        r is Some <==> safe_segment(user_id@) && safe_segment(thread@),
        r matches Some(p) ==> p@ == thread_file(root@, user_id@, thread@),
{
    if !is_safe_segment(user_id) || !is_safe_segment(thread) {
        return None;
    }
    let users = join_path(root, "users");
    let user = join_path(users.as_str(), user_id);
    let threads = join_path(user.as_str(), "threads");
    let name = crate::text::concat(thread, ".jsonl");
    Some(join_path(threads.as_str(), name.as_str()))
}

/// `s` without the characters `c` at its end.
pub open spec fn without_trailing(s: Seq<char>, c: char) -> Seq<char>
    decreases s.len(),
{
    if s.len() > 0 && s.last() == c {
        without_trailing(s.drop_last(), c)
    } else {
        s
    }
}

/// `s` without the characters `c` at its end.
pub fn trim_end_matches(s: &Vec<char>, c: char) -> (r: Vec<char>)
    ensures
        r@ == without_trailing(s@, c),
{
    let mut end: usize = s.len();
    assert(s@.take(end as int) =~= s@);
    while end > 0 && s[end - 1] == c
        invariant
            end <= s.len(),
            without_trailing(s@, c) == without_trailing(s@.take(end as int), c),
        decreases end,
    {
        proof {
            assert(s@.take(end as int).last() == s@[end - 1]);
            assert(s@.take(end as int).drop_last() =~= s@.take(end - 1));
        }
        end -= 1;
    }
    proof {
        if end > 0 {
            assert(s@.take(end as int).last() == s@[end - 1]);
        }
    }
    slice(s, 0, end)
}

/// Where the host of an address ends: at its first slash, else at its first
/// question mark, else at its end.
pub open spec fn host_end(rest: Seq<char>) -> int {
    if first_index(rest, '/') < rest.len() {
        first_index(rest, '/')
    } else {
        first_index(rest, '?')
    }
}

/// Where the path of an address ends: at its first question mark, else at
/// its first hash sign, else at its end.
pub open spec fn path_end(after: Seq<char>) -> int {
    if first_index(after, '?') < after.len() {
        first_index(after, '?')
    } else {
        first_index(after, '#')
    }
}

/// What follows the scheme of an address: nothing for an address that
/// begins with neither `http://` nor `https://`.
pub open spec fn after_scheme(url: Seq<char>) -> Option<Seq<char>> {
    if crate::text::starts_with(url, "http://"@) {
        Some(url.skip(7))
    } else if crate::text::starts_with(url, "https://"@) {
        Some(url.skip(8))
    } else {
        None
    }
}

/// The host and the path of an address: the host without dots and commas at
/// its end, the path without query and fragment, `/` where it is empty.
pub open spec fn url_parts(url: Seq<char>) -> Option<(Seq<char>, Seq<char>)> {
    match after_scheme(url) {
        None => None,
        Some(rest) => {
            let h = host_end(rest);
            let host = without_trailing(without_trailing(rest.take(h), '.'), ',');
            let after = rest.skip(h);
            let path = after.take(path_end(after));
            Some(
                (
                    host,
                    if path.len() == 0 {
                        "/"@
                    } else {
                        path
                    },
                ),
            )
        },
    }
}

/// The host and the path of an address.
pub fn split_url(url: &str) -> (r: Option<(String, String)>)
    ensures
        match r {
            Some((host, path)) => url_parts(url@) == Some((host@, path@)),
            None => url_parts(url@) is None,
        },
{
    let u = chars_of(url);
    let rest = if crate::text::begins_with(&u, "http://") {
        proof {
            reveal_strlit("http://");
        }
        let r = slice(&u, 7, u.len());
        assert(r@ =~= url@.skip(7));
        r
    } else if crate::text::begins_with(&u, "https://") {
        proof {
            reveal_strlit("https://");
        }
        let r = slice(&u, 8, u.len());
        assert(r@ =~= url@.skip(8));
        r
    } else {
        return None;
    };
    let slash = index_of(&rest, '/');
    let h = if slash < rest.len() {
        slash
    } else {
        index_of(&rest, '?')
    };
    let head = slice(&rest, 0, h);
    assert(head@ =~= rest@.take(h as int));
    let host = trim_end_matches(&trim_end_matches(&head, '.'), ',');
    let after = slice(&rest, h, rest.len());
    assert(after@ =~= rest@.skip(h as int));
    let question = index_of(&after, '?');
    let e = if question < after.len() {
        question
    } else {
        index_of(&after, '#')
    };
    let path = slice(&after, 0, e);
    assert(path@ =~= after@.take(e as int));
    let path_text = if path.len() == 0 {
        "/".to_owned()
    } else {
        text_of(&path)
    };
    Some((text_of(&host), path_text))
}

/// Whether the history endpoints are switched on: the switch is set to `1`,
/// `true`, `yes` or `y`, in any case of letters.
pub open spec fn history_enabled(switch: Option<Seq<char>>) -> bool {
    match switch {
        Some(v) => {
            let l = crate::text::ascii_lowercase(v);
            l == "1"@ || l == "true"@ || l == "yes"@ || l == "y"@
        },
        None => false,
    }
}

/// Whether the history endpoints are switched on; `switch` is the value of
/// the switch, where it is set.
pub fn codex_history_enabled(switch: Option<&str>) -> (r: bool)
    ensures
        r == history_enabled(
            match switch {
                Some(v) => Some(v@),
                None => None,
            },
        ),
{
    match switch {
        Some(v) => {
            let l = crate::text::to_ascii_lowercase(&chars_of(v));
            is_str(&l, "1") || is_str(&l, "true") || is_str(&l, "yes") || is_str(&l, "y")
        },
        None => false,
    }
}

} // verus!
