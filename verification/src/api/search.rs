//! Search over the recorded history: which lines match, what is shown of a
//! matching line, and when a search has enough.

use vstd::prelude::*;
use crate::ambient::{regex_fault, regex_fault_of, regex_find, regex_first};
use crate::json::{Json, JsonView};
use crate::text::{
    ascii_lowercase, byte_len, chars_of, find_from, occurs_at, opt_view, prefix, prefix_of,
    slice, text_of, to_ascii_lowercase, trim, trimmed, views,
};
use super::browse::{latest_names, list_latest, Listed};
use super::codex::{event_kind, event_ts, line_matches, matches_search, try_extract_meta};
use super::history::{is_log_request, log_request};
use super::redact::{redact, redacted};
use super::requests::{CodexSearchResp, CodexSearchResult};
use super::scan::lines_view;

verus! {

/// The number of bytes that a character takes in UTF-8.
pub open spec fn utf8_width(c: char) -> nat {
    if (c as u32) < 0x80 {
        1
    } else if (c as u32) < 0x800 {
        2
    } else if (c as u32) < 0x10000 {
        3
    } else {
        4
    }
}

/// The number of bytes that a text takes in UTF-8.
pub open spec fn bytes_of(s: Seq<char>) -> nat
    decreases s.len(),
{
    if s.len() == 0 {
        0
    } else {
        bytes_of(s.drop_last()) + utf8_width(s.last())
    }
}

/// How many characters at the beginning of a text lie wholly within its
/// first `a` bytes.
pub open spec fn chars_within(s: Seq<char>, a: nat) -> nat
    decreases s.len(),
{
    if s.len() == 0 || utf8_width(s[0]) > a {
        0
    } else {
        1 + chars_within(s.drop_first(), (a - utf8_width(s[0])) as nat)
    }
}

/// How many characters at the beginning of a text it takes to cover its
/// first `b` bytes.
pub open spec fn chars_covering(s: Seq<char>, b: nat) -> nat
    decreases s.len(),
{
    if s.len() == 0 || b == 0 {
        0
    } else {
        1 + chars_covering(
            s.drop_first(),
            if b > utf8_width(s[0]) {
                (b - utf8_width(s[0])) as nat
            } else {
                0
            },
        )
    }
}

/// What is shown of a line around a match that covers the bytes from
/// `start` to `end`: the line from two hundred and twenty bytes before the
/// match to as many after it, widened to whole characters, with an
/// ellipsis at each end where the line goes on, and cut to five hundred
/// characters.
pub open spec fn window(s: Seq<char>, start: nat, end: nat) -> Seq<char> {
    let a: nat = if start >= 220 {
        (start - 220) as nat
    } else {
        0
    };
    let b: nat = if end + 220 < bytes_of(s) {
        end + 220
    } else {
        bytes_of(s)
    };
    let from = chars_within(s, a);
    let to = chars_covering(s, b);
    let inner = if from <= to && to <= s.len() {
        s.subrange(from as int, to as int)
    } else {
        Seq::<char>::empty()
    };
    let out = (if from > 0 {
        seq!['…']
    } else {
        Seq::<char>::empty()
    }) + inner + (if to < s.len() {
        seq!['…']
    } else {
        Seq::<char>::empty()
    });
    if out.len() > 500 {
        out.take(500).push('…')
    } else {
        out
    }
}

/// What is shown of a matching line: a window around the match, where it
/// is known where the match stands; else the first five hundred characters
/// of the line.
pub open spec fn excerpt(s: Seq<char>, range: Option<(nat, nat)>) -> Seq<char> {
    match range {
        Some(r) => window(s, r.0, r.1),
        None => prefix(s, 500),
    }
}

/// The first place at or after `from` at which `needle` stands in `hay`.
pub open spec fn found_at(hay: Seq<char>, needle: Seq<char>, from: int) -> Option<int>
    decreases hay.len() - from,
{
    if from < 0 || from + needle.len() > hay.len() {
        None
    } else if occurs_at(hay, needle, from) {
        Some(from)
    } else if from < hay.len() {
        found_at(hay, needle, from + 1)
    } else {
        None
    }
}

/// Where the text `needle` first stands in `hay`, in bytes: from where to
/// where.
pub open spec fn text_range(hay: Seq<char>, needle: Seq<char>) -> Option<(nat, nat)> {
    match found_at(hay, needle, 0) {
        Some(i) => Some((bytes_of(hay.take(i)), bytes_of(hay.take(i)) + bytes_of(needle))),
        None => None,
    }
}

/// Where a search first matches a line, in bytes: where its regular
/// expression matches, where it has one; else where the text that is
/// searched for stands, with or without regard to the case of ASCII
/// letters.
pub open spec fn match_range(
    line: Seq<char>,
    q: Seq<char>,
    case_sensitive: bool,
    pattern: Option<Seq<char>>,
) -> Option<(nat, nat)> {
    match pattern {
        Some(p) => match regex_first(p, line) {
            Some(Some(r)) => Some((r.0 as nat, r.1 as nat)),
            _ => None,
        },
        None => if case_sensitive {
            text_range(line, q)
        } else {
            text_range(ascii_lowercase(line), ascii_lowercase(q))
        },
    }
}

/// The number of bytes that a character takes in UTF-8.
fn width_of(c: char) -> (w: u128)
    ensures
        w == utf8_width(c),
        1 <= w <= 4,
{
    let v = c as u32;
    if v < 0x80 {
        1
    } else if v < 0x800 {
        2
    } else if v < 0x10000 {
        3
    } else {
        4
    }
}

/// The bytes of a text grow with each character by no more than four.
pub proof fn lemma_bytes_bound(s: Seq<char>)
    ensures
        bytes_of(s) <= 4 * s.len(),
    decreases s.len(),
{
    if s.len() > 0 {
        lemma_bytes_bound(s.drop_last());
    }
}

/// The number of bytes that the first `n` characters of a text take.
fn bytes_upto(s: &Vec<char>, n: usize) -> (b: u128)
    requires
        n <= s@.len(),
    ensures
        b == bytes_of(s@.take(n as int)),
        b <= 4 * n,
{
    let mut b: u128 = 0;
    let mut i: usize = 0;
    assert(s@.take(0) =~= Seq::<char>::empty());
    while i < n
        invariant
            i <= n <= s@.len(),
            b == bytes_of(s@.take(i as int)),
            b <= 4 * i,
        decreases n - i,
    {
        proof {
            assert(s@.take(i + 1).drop_last() =~= s@.take(i as int));
            assert(s@.take(i + 1).last() == s@[i as int]);
        }
        b = b + width_of(s[i]);
        i += 1;
    }
    b
}

/// How many characters at the beginning of a text lie wholly within its
/// first `a` bytes.
fn within(s: &Vec<char>, a: u128) -> (n: usize)
    ensures
        n == chars_within(s@, a as nat),
        n <= s@.len(),
{
    let mut left: u128 = a;
    let mut i: usize = 0;
    assert(s@.skip(0) =~= s@);
    while i < s.len() && width_of(s[i]) <= left
        invariant
            i <= s.len(),
            chars_within(s@, a as nat) == i + chars_within(s@.skip(i as int), left as nat),
        decreases s.len() - i,
    {
        proof {
            assert(s@.skip(i as int)[0] == s@[i as int]);
            assert(s@.skip(i as int).drop_first() =~= s@.skip(i + 1));
        }
        left = left - width_of(s[i]);
        i += 1;
    }
    proof {
        if i < s.len() {
            assert(s@.skip(i as int)[0] == s@[i as int]);
        }
    }
    i
}

/// How many characters at the beginning of a text it takes to cover its
/// first `b` bytes.
fn covering(s: &Vec<char>, b: u128) -> (n: usize)
    ensures
        n == chars_covering(s@, b as nat),
        n <= s@.len(),
{
    let mut left: u128 = b;
    let mut i: usize = 0;
    assert(s@.skip(0) =~= s@);
    while i < s.len() && left > 0
        invariant
            i <= s.len(),
            chars_covering(s@, b as nat) == i + chars_covering(s@.skip(i as int), left as nat),
        decreases s.len() - i,
    {
        proof {
            assert(s@.skip(i as int)[0] == s@[i as int]);
            assert(s@.skip(i as int).drop_first() =~= s@.skip(i + 1));
        }
        let w = width_of(s[i]);
        left = if left > w {
            left - w
        } else {
            0
        };
        i += 1;
    }
    i
}

/// What is shown of a matching line, given where the match stands.
fn excerpt_window(s: &Vec<char>, range: Option<(u128, u128)>) -> (out: Vec<char>)
    requires
        range matches Some(r) ==> r.1 <= u128::MAX - 220,
    ensures
        out@ == excerpt(
            s@,
            match range {
                Some(r) => Some((r.0 as nat, r.1 as nat)),
                None => None,
            },
        ),
{
    let (start, end) = match range {
        Some(r) => r,
        None => {
            return prefix_of(s, 500);
        },
    };
    proof {
        assert(s@.take(s@.len() as int) =~= s@);
    }
    let total = bytes_upto(s, s.len());
    let a: u128 = if start >= 220 {
        start - 220
    } else {
        0
    };
    let b: u128 = if end + 220 < total {
        end + 220
    } else {
        total
    };
    let from = within(s, a);
    let to = covering(s, b);
    let mut out: Vec<char> = Vec::new();
    if from > 0 {
        out.push('…');
    }
    let ghost head = out@;
    if from <= to {
        let inner = slice(s, from, to);
        crate::text::push_all(&mut out, &inner);
        assert(out@ =~= head + s@.subrange(from as int, to as int));
    } else {
        assert(out@ =~= head + Seq::<char>::empty());
    }
    let ghost body = out@;
    if to < s.len() {
        out.push('…');
        assert(out@ =~= body + seq!['…']);
    } else {
        assert(out@ =~= body + Seq::<char>::empty());
    }
    if out.len() > 500 {
        let mut cut = prefix_of(&out, 500);
        cut.push('…');
        return cut;
    }
    out
}

/// What is shown of a matching line.
pub fn excerpt_around(s: &str, range: Option<(usize, usize)>) -> (out: String)
    ensures
        out@ == excerpt(
            s@,
            match range {
                Some(r) => Some((r.0 as nat, r.1 as nat)),
                None => None,
            },
        ),
{
    let r: Option<(u128, u128)> = match range {
        Some(r) => Some((r.0 as u128, r.1 as u128)),
        None => None,
    };
    text_of(&excerpt_window(&chars_of(s), r))
}

/// What `found_at` yields from a place on, given where the text first
/// stands from there.
pub proof fn lemma_found_at(hay: Seq<char>, needle: Seq<char>, from: int, i: int)
    requires
        0 <= from <= i,
        occurs_at(hay, needle, i),
        forall|j: int| from <= j < i ==> !occurs_at(hay, needle, j),
    ensures
        found_at(hay, needle, from) == Some(i),
    decreases i - from,
{
    if from < i {
        lemma_found_at(hay, needle, from + 1, i);
    }
}

/// Where a text stands nowhere from a place on, `found_at` yields nothing.
pub proof fn lemma_not_found(hay: Seq<char>, needle: Seq<char>, from: int)
    requires
        0 <= from,
        forall|j: int| from <= j ==> !occurs_at(hay, needle, j),
    ensures
        found_at(hay, needle, from) is None,
    decreases hay.len() - from,
{
    if from + needle.len() <= hay.len() && from < hay.len() {
        lemma_not_found(hay, needle, from + 1);
    }
}

/// Where the text `needle` first stands in `hay`, in bytes.
fn text_range_of(hay: &Vec<char>, needle: &Vec<char>) -> (r: Option<(u128, u128)>)
    ensures
        match r {
            Some(x) => text_range(hay@, needle@) == Some((x.0 as nat, x.1 as nat)) && x.1
                <= u128::MAX - 220,
            None => text_range(hay@, needle@) is None,
        },
{
    match find_from(hay, needle, 0) {
        Some(i) => {
            proof {
                lemma_found_at(hay@, needle@, 0, i as int);
                assert(needle@.take(needle@.len() as int) =~= needle@);
            }
            let start = bytes_upto(hay, i);
            let len = bytes_upto(needle, needle.len());
            Some((start, start + len))
        },
        None => {
            proof {
                lemma_not_found(hay@, needle@, 0);
            }
            None
        },
    }
}

/// One hit of a search, as it is shown.
pub struct HitView {
    pub source: Seq<char>,
    pub file: Seq<char>,
    pub line: u64,
    pub ts: Option<Seq<char>>,
    pub kind: Option<Seq<char>>,
    pub snippet: Seq<char>,
}

/// What a hit holds.
pub open spec fn hit_view(r: CodexSearchResult) -> HitView {
    HitView {
        source: r.source@,
        file: r.file@,
        line: r.line,
        ts: opt_view(r.ts),
        kind: opt_view(r.kind),
        snippet: r.snippet@,
    }
}

/// What hits hold.
pub open spec fn hits_view(results: Seq<CodexSearchResult>) -> Seq<HitView> {
    Seq::new(results.len(), |i: int| hit_view(results[i]))
}

/// What a search looks for: a text, with or without regard to the case of
/// ASCII letters, or the matches of a regular expression.
pub struct Wanted {
    pub q: Seq<char>,
    pub case_sensitive: bool,
    pub pattern: Option<Seq<char>>,
}

/// The hit that the line at the place `idx` of a file gives, where the
/// line matches after redaction: its number, the time stamp and the kind
/// of the event that it stands for, and what is shown of it.
pub open spec fn hit_of(
    source: Seq<char>,
    file: Seq<char>,
    idx: int,
    line: (Seq<char>, Option<JsonView>),
    w: Wanted,
) -> Option<HitView> {
    let red = redacted(line.0);
    if matches_search(red, w.q, w.case_sensitive, w.pattern) {
        Some(
            HitView {
                source,
                file,
                line: (idx + 1) as u64,
                ts: match line.1 {
                    Some(v) => event_ts(v),
                    None => None,
                },
                kind: match line.1 {
                    Some(v) => event_kind(v),
                    None => None,
                },
                snippet: excerpt(red, match_range(red, w.q, w.case_sensitive, w.pattern)),
            },
        )
    } else {
        None
    }
}

/// The hits after the first `n` lines of a file were searched: each line
/// that matches adds a hit, until there are `max` hits.
pub open spec fn hits_after(
    hits: Seq<HitView>,
    source: Seq<char>,
    file: Seq<char>,
    lines: Seq<(Seq<char>, Option<JsonView>)>,
    w: Wanted,
    max: usize,
    n: int,
) -> Seq<HitView>
    decreases n,
{
    if n <= 0 {
        hits
    } else {
        let before = hits_after(hits, source, file, lines, w, max, n - 1);
        if before.len() >= max {
            before
        } else {
            match hit_of(source, file, n - 1, lines[n - 1], w) {
                Some(h) => before.push(h),
                None => before,
            }
        }
    }
}

/// What a search looks for, as it was asked.
pub open spec fn wanted(q: &str, case_sensitive: bool, pattern: Option<&str>) -> Wanted {
    Wanted {
        q: q@,
        case_sensitive,
        pattern: match pattern {
            Some(p) => Some(p@),
            None => None,
        },
    }
}

/// Where a search first matches a line, in bytes.
fn match_range_of(line: &str, q: &str, case_sensitive: bool, pattern: Option<&str>) -> (r: Option<
    (u128, u128),
>)
    ensures
        match r {
            Some(x) => match_range(
                line@,
                q@,
                case_sensitive,
                wanted(q, case_sensitive, pattern).pattern,
            ) == Some((x.0 as nat, x.1 as nat)) && x.1 <= u128::MAX - 220,
            None => match_range(
                line@,
                q@,
                case_sensitive,
                wanted(q, case_sensitive, pattern).pattern,
            ) is None,
        },
{
    if let Some(p) = pattern {
        return match regex_find(p, line) {
            Some(Some(r)) => Some((r.0 as u128, r.1 as u128)),
            _ => None,
        };
    }
    let hay = chars_of(line);
    let needle = chars_of(q);
    if case_sensitive {
        text_range_of(&hay, &needle)
    } else {
        text_range_of(&to_ascii_lowercase(&hay), &to_ascii_lowercase(&needle))
    }
}

/// Searches the lines at the end of a file and adds what matches to the
/// hits, until there are `max_results` of them.
pub fn search_jsonl_file_tail(
    source: &str,
    file_label: &str,
    lines: &Vec<(String, Option<Json>)>,
    q: &str,
    case_sensitive: bool,
    pattern: Option<&str>,
    max_results: usize,
    results: &mut Vec<CodexSearchResult>,
)
    ensures
        hits_view(final(results)@) == hits_after(
            hits_view(old(results)@),
            source@,
            file_label@,
            lines_view(lines@),
            wanted(q, case_sensitive, pattern),
            max_results,
            lines@.len() as int,
        ),
{
    let ghost all = lines_view(lines@);
    let ghost start = hits_view(results@);
    let ghost w = wanted(q, case_sensitive, pattern);
    let mut i: usize = 0;
    while i < lines.len()
        invariant
            i <= lines.len(),
            all == lines_view(lines@),
            w == wanted(q, case_sensitive, pattern),
            hits_view(results@) == hits_after(
                start,
                source@,
                file_label@,
                all,
                w,
                max_results,
                i as int,
            ),
        decreases lines.len() - i,
    {
        let ghost before = hits_view(results@);
        assert(all[i as int].0 == lines@[i as int].0@);
        if results.len() < max_results {
            let red = redact(lines[i].0.as_str());
            if line_matches(red.as_str(), q, case_sensitive, pattern) {
                let range = match_range_of(red.as_str(), q, case_sensitive, pattern);
                let (ts, kind) = match &lines[i].1 {
                    Some(v) => try_extract_meta(v),
                    None => (None, None),
                };
                let snippet = text_of(&excerpt_window(&chars_of(red.as_str()), range));
                let hit = CodexSearchResult {
                    source: source.to_owned(),
                    file: file_label.to_owned(),
                    line: i as u64 + 1,
                    ts,
                    kind,
                    snippet,
                };
                results.push(hit);
                assert(hits_view(results@) =~= before.push(hit_view(hit)));
            }
        }
        i += 1;
    }
}

/// The text that a search is asked for: the query without the white space
/// around it, where that is not empty and takes no more than four thousand
/// bytes.
pub open spec fn search_query(q: Seq<char>) -> Option<Seq<char>> {
    let t = trimmed(q);
    if t.len() == 0 || byte_len(t) > 4000 {
        None
    } else {
        Some(t)
    }
}

/// The text that a search is asked for, or why the search is refused.
pub fn search_request(q: &str) -> (r: Result<String, String>)
    ensures
        match r {
            Ok(t) => search_query(q@) == Some(t@),
            Err(msg) => search_query(q@) is None && msg@
                == "q must be non-empty and <= 4000 chars"@,
        },
{
    let t = text_of(&trim(&chars_of(q)));
    if t.as_str().unicode_len() == 0 || t.as_str().len() > 4000 {
        return Err("q must be non-empty and <= 4000 chars".to_owned());
    }
    Ok(t)
}

/// The logs among the first `n` files of the log directory whose names
/// can be asked for.
pub open spec fn askable(files: Seq<Listed>, n: int) -> Seq<Listed>
    decreases n,
{
    if n <= 0 {
        Seq::<Listed>::empty()
    } else if log_request(files[n - 1].name@) {
        askable(files, n - 1).push(files[n - 1])
    } else {
        askable(files, n - 1)
    }
}

/// The names of the logs that a scan or a search reads: of the regular
/// files of the log directory whose names can be asked for, the `limit`
/// that changed last, the latest first.
pub fn recent_logs(files: Vec<Listed>, limit: usize) -> (names: Vec<String>)
    ensures
        latest_names(views(names@), askable(files@, files@.len() as int), limit),
{
    let ghost given = files@;
    let mut files = files;
    let mut rest: Vec<Listed> = Vec::new();
    while files.len() > 0
        invariant
            files@.len() + rest@.len() == given.len(),
            files@ == given.take(files@.len() as int),
            forall|j: int|
                0 <= j < rest@.len() ==> (#[trigger] rest@[j]) == given[given.len() - 1 - j],
        decreases files.len(),
    {
        let ghost n = files@.len() as int;
        let f = files.pop().unwrap();
        assert(f == given[n - 1]);
        assert(files@ =~= given.take(n - 1));
        rest.push(f);
    }
    let mut logs: Vec<Listed> = Vec::new();
    assert(logs@ =~= askable(given, 0));
    while rest.len() > 0
        invariant
            rest@.len() <= given.len(),
            forall|j: int|
                0 <= j < rest@.len() ==> (#[trigger] rest@[j]) == given[given.len() - 1 - j],
            logs@ == askable(given, given.len() - rest@.len()),
        decreases rest.len(),
    {
        let ghost k = given.len() - rest@.len();
        let f = rest.pop().unwrap();
        assert(f == given[k]);
        if is_log_request(f.name.as_str()) {
            logs.push(f);
        }
    }
    list_latest(logs, limit)
}

/// The answer to a search: it was cut short where it has as many hits as
/// it may have.
pub fn search_resp(
    generated_at: &str,
    query: String,
    scanned_files: u64,
    results: Vec<CodexSearchResult>,
    limit: usize,
) -> (r: CodexSearchResp)
    ensures
        r.generated_at@ == generated_at@,
        r.query == query,
        r.scanned_files == scanned_files,
        r.results@ == results@,
        r.truncated == (results@.len() >= limit),
{
    let truncated = results.len() >= limit;
    CodexSearchResp {
        generated_at: generated_at.to_owned(),
        query,
        scanned_files,
        results,
        truncated,
    }
}

/// The regular expression of a search, where it searches by one: the
/// query itself. An error where the query is no regular expression.
pub open spec fn search_pattern(query: Seq<char>, use_regex: bool) -> Result<
    Option<Seq<char>>,
    Seq<char>,
> {
    if !use_regex {
        Ok(None)
    } else {
        match regex_fault(query) {
            Some(fault) => Err("invalid regex: "@ + fault),
            None => Ok(Some(query)),
        }
    }
}

/// The regular expression of a search, given what is wrong with the query
/// as a regular expression, where something is.
pub fn pattern_given(query: &str, use_regex: bool, fault: Option<String>) -> (r: Result<
    Option<String>,
    String,
>)
    ensures
        match r {
            Ok(p) => (!use_regex || fault is None) && opt_view(p) == if use_regex {
                Some(query@)
            } else {
                None
            },
            Err(msg) => use_regex && fault is Some && msg@ == "invalid regex: "@ + fault->0@,
        },
{
    if !use_regex {
        return Ok(None);
    }
    match fault {
        Some(f) => Err(crate::text::concat("invalid regex: ", f.as_str())),
        None => Ok(Some(query.to_owned())),
    }
}

/// The regular expression of a search.
pub fn pattern_of(query: &str, use_regex: bool) -> (r: Result<Option<String>, String>)
    ensures
        match r {
            Ok(p) => search_pattern(query@, use_regex) == Ok::<Option<Seq<char>>, Seq<char>>(
                opt_view(p),
            ),
            Err(msg) => search_pattern(query@, use_regex) == Err::<Option<Seq<char>>, Seq<char>>(
                msg@,
            ),
        },
{
    let fault = if use_regex {
        regex_fault_of(query)
    } else {
        None
    };
    pattern_given(query, use_regex, fault)
}

} // verus!
