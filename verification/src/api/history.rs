//! The recorded history: who may read it, its sources, its latest archive
//! and its rollout logs.

use vstd::prelude::*;
use crate::json::{entries_view, items_view, put, Json, JsonView};
use crate::order::{
    is_text_before, lemma_text_before_asymmetric, lemma_text_before_irreflexive,
    lemma_text_before_total, lemma_text_before_transitive, ranked, sort_ranked, text_before,
    Ranked,
};
use crate::text::{
    begins_with, chars_of, ends_with, finishes_with, opt_view, starts_with, str_eq, views,
};
use super::codex::capped_sum;
use super::requests::{AppState, CodexSourceInfo, CodexSourcesResp};
use super::{is_safe_segment, opt_text_json, opt_text_view, safe_segment, UserContext};

verus! {

/// The first of the callers with the key `api_key`; the number of callers
/// where none has it.
pub open spec fn holder(users: Seq<UserContext>, api_key: Seq<char>) -> int
    decreases users.len(),
{
    if users.len() == 0 || users[0].api_key@ == api_key {
        0
    } else {
        1 + holder(users.drop_first(), api_key)
    }
}

/// The caller that a key belongs to: the first of the known callers with
/// that key.
pub fn authenticate_user<'a>(state: &'a AppState, api_key: &str) -> (r: Option<&'a UserContext>)
    ensures
        0 <= holder(state.users@, api_key@) <= state.users@.len(),
        match r {
            Some(u) => holder(state.users@, api_key@) < state.users@.len() && *u
                == state.users@[holder(state.users@, api_key@)],
            None => holder(state.users@, api_key@) == state.users@.len(),
        },
{
    let ghost all = state.users@;
    let mut i: usize = 0;
    assert(all.skip(0) =~= all);
    while i < state.users.len()
        invariant
            i <= state.users.len(),
            all == state.users@,
            holder(all, api_key@) == i + holder(all.skip(i as int), api_key@),
        decreases state.users.len() - i,
    {
        proof {
            assert(all.skip(i as int)[0] == all[i as int]);
            assert(all.skip(i as int).drop_first() =~= all.skip(i + 1));
        }
        if str_eq(state.users[i].api_key.as_str(), api_key) {
            return Some(&state.users[i]);
        }
        i += 1;
    }
    assert(all.skip(state.users@.len() as int).len() == 0);
    None
}

/// What a request for the recorded history is answered with before
/// anything is read.
#[derive(Clone, Copy, Debug, PartialEq, Eq, Structural)]
pub enum Access {
    /// The history is switched off: the request finds nothing.
    Disabled,
    /// The request carries no key.
    MissingKey,
    /// The key of the request belongs to no caller.
    InvalidKey,
    Granted,
}

/// Whether a request may read the recorded history: the history must be
/// switched on, and the request must carry the key of a known caller.
pub fn codex_access(enabled: bool, api_key: Option<&str>, state: &AppState) -> (r: Access)
    ensures
        r == if !enabled {
            Access::Disabled
        } else {
            match api_key {
                None => Access::MissingKey,
                Some(k) => if holder(state.users@, k@) < state.users@.len() {
                    Access::Granted
                } else {
                    Access::InvalidKey
                },
            }
        },
{
    if !enabled {
        return Access::Disabled;
    }
    match api_key {
        None => Access::MissingKey,
        Some(k) => match authenticate_user(state, k) {
            Some(_) => Access::Granted,
            None => Access::InvalidKey,
        },
    }
}

/// A file of a directory: its name, its size in bytes, whether it is a
/// regular file, and the time of its last change as a time stamp, where
/// that is known.
#[derive(Debug)]
pub struct FileMeta {
    pub name: String,
    pub size: u64,
    pub is_file: bool,
    pub mtime: Option<String>,
}

/// `name` is the name of an archive of the history.
pub open spec fn archive_name(name: Seq<char>) -> bool {
    starts_with(name, "codex_history_"@) && ends_with(name, ".jsonl"@)
}

/// `name` is the name of a log.
pub open spec fn log_name(name: Seq<char>) -> bool {
    ends_with(name, ".jsonl"@)
}

/// Whether `name` is the name of an archive of the history.
pub fn is_archive_name(name: &str) -> (r: bool)
    ensures
        r == archive_name(name@),
{
    let n = chars_of(name);
    begins_with(&n, "codex_history_") && finishes_with(&n, ".jsonl")
}

/// The later of two time stamps, by the order of strings.
pub open spec fn later(a: Option<Seq<char>>, b: Option<Seq<char>>) -> Option<Seq<char>> {
    match (a, b) {
        (Some(x), Some(y)) => if text_before(x, y) {
            b
        } else {
            a
        },
        (None, Some(_)) => b,
        _ => a,
    }
}

/// The later of two time stamps.
fn later_of(a: Option<String>, b: &Option<String>) -> (r: Option<String>)
    ensures
        opt_view(r) == later(opt_view(a), opt_view(*b)),
{
    match b {
        None => a,
        Some(y) => match a {
            None => Some(y.clone()),
            Some(x) => if is_text_before(&chars_of(x.as_str()), &chars_of(y.as_str())) {
                Some(y.clone())
            } else {
                Some(x)
            },
        },
    }
}

/// What the first `n` files of the archive directory come to: the bytes of
/// the archives among them, where there is one, and the latest of their
/// time stamps.
pub open spec fn archives(files: Seq<FileMeta>, n: int) -> (Option<u64>, Option<Seq<char>>)
    decreases n,
{
    if n <= 0 {
        (None, None)
    } else {
        let before = archives(files, n - 1);
        if archive_name(files[n - 1].name@) {
            (
                Some(
                    capped_sum(
                        match before.0 {
                            Some(s) => s,
                            None => 0,
                        },
                        files[n - 1].size,
                    ),
                ),
                later(before.1, opt_view(files[n - 1].mtime)),
            )
        } else {
            before
        }
    }
}

/// What the first `n` files of the log directory come to: the number of
/// the logs among them, their bytes, and the latest of their time stamps.
pub open spec fn rollouts(files: Seq<FileMeta>, n: int) -> (u64, u64, Option<Seq<char>>)
    decreases n,
{
    if n <= 0 {
        (0, 0, None)
    } else {
        let before = rollouts(files, n - 1);
        if log_name(files[n - 1].name@) && files[n - 1].is_file {
            (
                capped_sum(before.0, 1),
                capped_sum(before.1, files[n - 1].size),
                later(before.2, opt_view(files[n - 1].mtime)),
            )
        } else {
            before
        }
    }
}

/// `info` is a source of the history with these properties.
pub open spec fn source_is(
    info: CodexSourceInfo,
    id: Seq<char>,
    kind: Seq<char>,
    description: Seq<char>,
    available: bool,
    size_bytes: Option<u64>,
    file_count: Option<u64>,
    mtime: Option<Seq<char>>,
) -> bool {
    &&& info.id@ == id
    &&& info.kind@ == kind
    &&& info.description@ == description
    &&& info.available == available
    &&& info.size_bytes == size_bytes
    &&& info.file_count == file_count
    &&& opt_view(info.mtime) == mtime
}

/// `info` describes the archives whose directory holds `files`: they are
/// available where the directory holds an archive.
pub open spec fn is_archive_source(info: CodexSourceInfo, files: Seq<FileMeta>) -> bool {
    source_is(
        info,
        "orchestrator_archives"@,
        "dir"@,
        "Codex Time Machine era archives (codex_history_*.jsonl)"@,
        archives(files, files.len() as int).0 is Some,
        archives(files, files.len() as int).0,
        None,
        archives(files, files.len() as int).1,
    )
}

/// `info` describes the logs whose directory holds `files`: they are
/// available where the directory holds a log.
pub open spec fn is_rollouts_source(info: CodexSourceInfo, files: Seq<FileMeta>) -> bool {
    source_is(
        info,
        "meta3_rollouts"@,
        "dir"@,
        "Meta3 rollout logs (*.jsonl)"@,
        rollouts(files, files.len() as int).0 > 0,
        Some(rollouts(files, files.len() as int).1),
        Some(rollouts(files, files.len() as int).0),
        rollouts(files, files.len() as int).2,
    )
}

/// `info` describes one file under the identifier `id`: it is available
/// where it exists and is a regular file.
pub open spec fn is_file_source(
    info: CodexSourceInfo,
    id: Seq<char>,
    description: Seq<char>,
    meta: Option<&FileMeta>,
) -> bool {
    match meta {
        Some(m) => source_is(
            info,
            id,
            "file"@,
            description,
            m.is_file,
            Some(m.size),
            None,
            opt_view(m.mtime),
        ),
        None => source_is(info, id, "file"@, description, false, None, None, None),
    }
}

/// The archives as a source of the history, given the files of their
/// directory.
pub fn archive_source(files: &Vec<FileMeta>) -> (info: CodexSourceInfo)
    ensures
        is_archive_source(info, files@),
{
    let mut size: Option<u64> = None;
    let mut mtime: Option<String> = None;
    let mut i: usize = 0;
    while i < files.len()
        invariant
            i <= files.len(),
            (size, opt_view(mtime)) == archives(files@, i as int),
        decreases files.len() - i,
    {
        if is_archive_name(files[i].name.as_str()) {
            let so_far = match size {
                Some(s) => s,
                None => 0,
            };
            size = Some(so_far.saturating_add(files[i].size));
            mtime = later_of(mtime, &files[i].mtime);
        }
        i += 1;
    }
    CodexSourceInfo {
        id: "orchestrator_archives".to_owned(),
        kind: "dir".to_owned(),
        description: "Codex Time Machine era archives (codex_history_*.jsonl)".to_owned(),
        available: size.is_some(),
        size_bytes: size,
        file_count: None,
        mtime,
    }
}

/// The logs as a source of the history, given the files of their
/// directory.
pub fn rollouts_source(files: &Vec<FileMeta>) -> (info: CodexSourceInfo)
    ensures
        is_rollouts_source(info, files@),
{
    let mut count: u64 = 0;
    let mut size: u64 = 0;
    let mut mtime: Option<String> = None;
    let mut i: usize = 0;
    while i < files.len()
        invariant
            i <= files.len(),
            (count, size, opt_view(mtime)) == rollouts(files@, i as int),
        decreases files.len() - i,
    {
        if finishes_with(&chars_of(files[i].name.as_str()), ".jsonl") && files[i].is_file {
            count = count.saturating_add(1);
            size = size.saturating_add(files[i].size);
            mtime = later_of(mtime, &files[i].mtime);
        }
        i += 1;
    }
    CodexSourceInfo {
        id: "meta3_rollouts".to_owned(),
        kind: "dir".to_owned(),
        description: "Meta3 rollout logs (*.jsonl)".to_owned(),
        available: count > 0,
        size_bytes: Some(size),
        file_count: Some(count),
        mtime,
    }
}

/// One file as a source of the history, given what is known of the file
/// where it exists.
pub fn file_source(id: &str, description: &str, meta: Option<&FileMeta>) -> (info: CodexSourceInfo)
    ensures
        is_file_source(info, id@, description@, meta),
{
    match meta {
        Some(m) => CodexSourceInfo {
            id: id.to_owned(),
            kind: "file".to_owned(),
            description: description.to_owned(),
            available: m.is_file,
            size_bytes: Some(m.size),
            file_count: None,
            mtime: match &m.mtime {
                Some(t) => Some(t.clone()),
                None => None,
            },
        },
        None => CodexSourceInfo {
            id: id.to_owned(),
            kind: "file".to_owned(),
            description: description.to_owned(),
            available: false,
            size_bytes: None,
            file_count: None,
            mtime: None,
        },
    }
}

/// The four sources of the history: the archives, the logs, and the two
/// normalized files.
pub fn codex_sources(
    archive_files: &Vec<FileMeta>,
    log_files: &Vec<FileMeta>,
    normalized_codex: Option<&FileMeta>,
    normalized_history: Option<&FileMeta>,
) -> (r: CodexSourcesResp)
    ensures
        r.sources@.len() == 4,
        is_archive_source(r.sources@[0], archive_files@),
        is_rollouts_source(r.sources@[1], log_files@),
        is_file_source(
            r.sources@[2],
            "utir_normalized_codex"@,
            "UTIR normalized Codex JSONL"@,
            normalized_codex,
        ),
        is_file_source(
            r.sources@[3],
            "utir_normalized_history"@,
            "UTIR normalized history/event ledger JSONL"@,
            normalized_history,
        ),
{
    let mut sources: Vec<CodexSourceInfo> = Vec::new();
    sources.push(archive_source(archive_files));
    sources.push(rollouts_source(log_files));
    sources.push(
        file_source("utir_normalized_codex", "UTIR normalized Codex JSONL", normalized_codex),
    );
    sources.push(
        file_source(
            "utir_normalized_history",
            "UTIR normalized history/event ledger JSONL",
            normalized_history,
        ),
    );
    CodexSourcesResp { sources }
}

/// The latest archive among the first `n` names: the archive name that
/// comes last in the order of strings.
pub open spec fn latest_archive(names: Seq<Seq<char>>, n: int) -> Option<Seq<char>>
    decreases n,
{
    if n <= 0 {
        None
    } else {
        let before = latest_archive(names, n - 1);
        if archive_name(names[n - 1]) && (match before {
            Some(b) => text_before(b, names[n - 1]),
            None => true,
        }) {
            Some(names[n - 1])
        } else {
            before
        }
    }
}

/// The latest archive among the names of a directory.
pub fn latest_archive_of(names: &Vec<String>) -> (r: Option<String>)
    ensures
        opt_view(r) == latest_archive(views(names@), names@.len() as int),
{
    let ghost all = views(names@);
    let mut best: Option<String> = None;
    let mut i: usize = 0;
    while i < names.len()
        invariant
            i <= names.len(),
            all == views(names@),
            opt_view(best) == latest_archive(all, i as int),
        decreases names.len() - i,
    {
        assert(all[i as int] == names@[i as int]@);
        if is_archive_name(names[i].as_str()) {
            let replace = match &best {
                Some(b) => is_text_before(
                    &chars_of(b.as_str()),
                    &chars_of(names[i].as_str()),
                ),
                None => true,
            };
            if replace {
                best = Some(names[i].clone());
            }
        }
        i += 1;
    }
    best
}

/// The events that the lines at the end of a file stand for: the value of
/// each line that stands for one, and the line itself under `raw` for any
/// other.
pub open spec fn tail_events(lines: Seq<(Seq<char>, Option<JsonView>)>) -> Seq<JsonView> {
    Seq::new(
        lines.len(),
        |i: int|
            match lines[i].1 {
                Some(v) => v,
                None => JsonView::Object(seq![("raw"@, JsonView::Text(lines[i].0))]),
            },
    )
}

/// The end of a file of the source `source` as a structured value.
pub open spec fn tail_view(
    source: Seq<char>,
    file: Seq<char>,
    lines: Seq<(Seq<char>, Option<JsonView>)>,
) -> JsonView {
    JsonView::Object(
        seq![
            ("source"@, JsonView::Text(source)),
            ("file"@, JsonView::Text(file)),
            ("events"@, JsonView::List(tail_events(lines))),
        ],
    )
}

/// The end of a file of the source `source` as a structured value.
pub fn tail_json(source: &str, file: &str, lines: &Vec<(String, Option<Json>)>) -> (r: Json)
    ensures
        r@ == tail_view(source@, file@, super::scan::lines_view(lines@)),
{
    let ghost all = super::scan::lines_view(lines@);
    let mut events: Vec<Json> = Vec::new();
    let mut i: usize = 0;
    while i < lines.len()
        invariant
            i <= lines.len(),
            all == super::scan::lines_view(lines@),
            events@.len() == i,
            forall|j: int| 0 <= j < i ==> (#[trigger] events@[j])@ == tail_events(all)[j],
        decreases lines.len() - i,
    {
        assert(all[i as int].0 == lines@[i as int].0@);
        let ev = match &lines[i].1 {
            Some(v) => v.copy(),
            None => {
                let mut e: Vec<(String, Json)> = Vec::new();
                put(&mut e, "raw", Json::text(lines[i].0.as_str()));
                assert(entries_view(e@) =~= seq![("raw"@, JsonView::Text(lines@[i as int].0@))]);
                Json::Object(e)
            },
        };
        events.push(ev);
        i += 1;
    }
    assert(items_view(events@) =~= tail_events(all));
    let mut e: Vec<(String, Json)> = Vec::new();
    put(&mut e, "source", Json::text(source));
    put(&mut e, "file", Json::text(file));
    put(&mut e, "events", Json::List(events));
    assert(entries_view(e@) =~= tail_view(source@, file@, all)->Object_0);
    Json::Object(e)
}

/// `file` can be asked for as a log: it is a safe segment and has the
/// ending of a log.
pub open spec fn log_request(file: Seq<char>) -> bool {
    safe_segment(file) && log_name(file)
}

/// Whether `file` can be asked for as a log.
pub fn is_log_request(file: &str) -> (r: bool)
    ensures
        r == log_request(file@),
{
    is_safe_segment(file) && finishes_with(&chars_of(file), ".jsonl")
}

impl Ranked for FileMeta {
    /// The file with the later name comes first.
    open spec fn precedes(&self, other: &Self) -> bool {
        text_before(other.name@, self.name@)
    }

    fn comes_before(&self, other: &Self) -> (r: bool) {
        is_text_before(&chars_of(other.name.as_str()), &chars_of(self.name.as_str()))
    }

    proof fn lemma_asymmetric(a: &Self, b: &Self) {
        lemma_text_before_asymmetric(a.name@, b.name@);
    }

    proof fn lemma_negatively_transitive(a: &Self, b: &Self, c: &Self) {
        lemma_text_before_total(a.name@, b.name@);
        lemma_text_before_total(b.name@, c.name@);
        lemma_text_before_irreflexive(a.name@);
        if text_before(a.name@, c.name@) {
            if text_before(c.name@, b.name@) {
                lemma_text_before_transitive(a.name@, c.name@, b.name@);
            }
            if text_before(b.name@, a.name@) {
                lemma_text_before_transitive(b.name@, a.name@, c.name@);
                lemma_text_before_asymmetric(b.name@, c.name@);
            }
        }
    }
}

/// The logs among the first `n` files: the regular files with the ending
/// of a log whose names are safe segments.
pub open spec fn logs_among(files: Seq<FileMeta>, n: int) -> Seq<FileMeta>
    decreases n,
{
    if n <= 0 {
        Seq::<FileMeta>::empty()
    } else if log_request(files[n - 1].name@) && files[n - 1].is_file {
        logs_among(files, n - 1).push(files[n - 1])
    } else {
        logs_among(files, n - 1)
    }
}

/// `listed` are the first `limit` of the logs among `files`, those with
/// the later names first.
pub open spec fn listed_logs(listed: Seq<FileMeta>, files: Seq<FileMeta>, limit: usize) -> bool {
    exists|all: Seq<FileMeta>|
        #![trigger ranked(all)]
        {
            &&& ranked(all)
            &&& all.to_multiset() == logs_among(files, files.len() as int).to_multiset()
            &&& listed == if all.len() <= limit {
                all
            } else {
                all.take(limit as int)
            }
        }
}

/// The logs that a listing shows.
pub fn list_logs(files: Vec<FileMeta>, limit: usize) -> (listed: Vec<FileMeta>)
    ensures
        listed_logs(listed@, files@, limit),
{
    let ghost given = files@;
    let mut files = files;
    let mut rest: Vec<FileMeta> = Vec::new();
    while files.len() > 0
        invariant
            files@.len() + rest@.len() == given.len(),
            files@ == given.take(files@.len() as int),
            forall|j: int| 0 <= j < rest@.len() ==> (#[trigger] rest@[j]) == given[given.len() - 1 - j],
        decreases files.len(),
    {
        let ghost n = files@.len() as int;
        let f = files.pop().unwrap();
        assert(f == given[n - 1]);
        assert(files@ =~= given.take(n - 1));
        rest.push(f);
    }
    let mut logs: Vec<FileMeta> = Vec::new();
    assert(logs@ =~= logs_among(given, 0));
    while rest.len() > 0
        invariant
            rest@.len() <= given.len(),
            forall|j: int| 0 <= j < rest@.len() ==> (#[trigger] rest@[j]) == given[given.len() - 1 - j],
            logs@ == logs_among(given, given.len() - rest@.len()),
        decreases rest.len(),
    {
        let ghost k = given.len() - rest@.len();
        let f = rest.pop().unwrap();
        assert(f == given[k]);
        if is_log_request(f.name.as_str()) && f.is_file {
            logs.push(f);
        }
    }
    let mut sorted = sort_ranked(logs);
    let ghost all = sorted@;
    if sorted.len() > limit {
        sorted.truncate(limit);
    }
    assert(ranked(all));
    sorted
}

/// A log of a listing as a structured value.
pub open spec fn log_view(f: FileMeta) -> JsonView {
    JsonView::Object(
        seq![
            ("name"@, JsonView::Text(f.name@)),
            ("size_bytes"@, JsonView::Int(f.size as int)),
            ("mtime"@, opt_text_view(opt_view(f.mtime))),
        ],
    )
}

/// A listing of logs as a structured value: the source, the number of the
/// logs, and the logs.
pub open spec fn listing_view(listed: Seq<FileMeta>) -> JsonView {
    JsonView::Object(
        seq![
            ("source"@, JsonView::Text("meta3_rollouts"@)),
            ("count"@, JsonView::Int(listed.len() as int)),
            ("files"@, JsonView::List(Seq::new(listed.len(), |i: int| log_view(listed[i])))),
        ],
    )
}

/// A listing of logs as a structured value.
pub fn listing_json(listed: &Vec<FileMeta>) -> (r: Json)
    ensures
        r@ == listing_view(listed@),
{
    let mut files: Vec<Json> = Vec::new();
    let mut i: usize = 0;
    while i < listed.len()
        invariant
            i <= listed.len(),
            files@.len() == i,
            forall|j: int| 0 <= j < i ==> (#[trigger] files@[j])@ == log_view(listed@[j]),
        decreases listed.len() - i,
    {
        let mut e: Vec<(String, Json)> = Vec::new();
        put(&mut e, "name", Json::text(listed[i].name.as_str()));
        put(&mut e, "size_bytes", Json::Nat(listed[i].size));
        put(&mut e, "mtime", opt_text_json(&listed[i].mtime));
        assert(entries_view(e@) =~= log_view(listed@[i as int])->Object_0);
        files.push(Json::Object(e));
        i += 1;
    }
    assert(items_view(files@) =~= Seq::new(listed@.len(), |i: int| log_view(listed@[i])));
    let mut e: Vec<(String, Json)> = Vec::new();
    put(&mut e, "source", Json::text("meta3_rollouts"));
    put(&mut e, "count", Json::Nat(listed.len() as u64));
    put(&mut e, "files", Json::List(files));
    assert(entries_view(e@) =~= listing_view(listed@)->Object_0);
    Json::Object(e)
}

} // verus!
