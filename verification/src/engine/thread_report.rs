//! Thread reports: what a report run is asked for, what it reports, which
//! thread it covers and which words stand out in it.

use vstd::prelude::*;
use crate::api::codex::{add_count, counts_view, top_n, top_of, with_count, CountedItem};
use crate::api::threads::{field_text, ThreadEvent};
use crate::api::{
    is_safe_segment, opt_text_json, opt_text_view, receipt_url, receipt_url_of, safe_segment,
};
use crate::json::{entries_view, items_view, put, Json, JsonView};
use crate::level::{decimal, decimal_of, fixed, push_fixed};
use crate::text::{
    chars_of, escaped, html_escaped, is_str, join_path, joined, lowercase, on_one_line,
    one_line_of, opt_view, push_all, push_str, str_eq, text_of, trim, trimmed, truncate, truncated,
    views,
};
use super::graphs::{bound_count, bounded_count, text_or_empty, GraphNode};
use super::pages::{report_html, report_html_text};
use super::thread_graph::{bits_lite_json, bits_lite_view, opt_bool_view};
use super::thread_pages::{or_empty, view_link, view_link_of};

verus! {

/// What a thread report run reports.
#[derive(Debug)]
pub struct ThreadReportResult {
    pub out_dir: String,
    pub nodes: usize,
    pub thread: String,
}

/// Which thread a report covers and how much of it. `thread` is a thread
/// identifier, or `"auto"` for the largest thread of the user.
#[derive(Debug)]
pub struct ThreadReportOpts {
    pub user_id: String,
    pub thread: String,
    pub max_events: usize,
    pub content_chars: usize,
}

/// The options of a report within their bounds: twenty to two thousand
/// events, sixty to six hundred characters of content.
pub fn bound_report_opts(opts: ThreadReportOpts) -> (r: ThreadReportOpts)
    ensures
        r.user_id == opts.user_id,
        r.thread == opts.thread,
        r.max_events == bounded_count(opts.max_events, 20, 2000),
        r.content_chars == bounded_count(opts.content_chars, 60, 600),
{
    ThreadReportOpts {
        user_id: opts.user_id,
        thread: opts.thread,
        max_events: bound_count(opts.max_events, 20, 2000),
        content_chars: bound_count(opts.content_chars, 60, 600),
    }
}

/// A thread file that a report can cover: its name without the ending, and
/// its size in bytes.
#[derive(Debug)]
pub struct ThreadFile {
    pub name: String,
    pub size: u64,
}

/// The largest of the thread files whose name is a safe segment, the
/// earliest of them where several are as large: `best` is the largest of
/// those before.
pub open spec fn largest(files: Seq<ThreadFile>, best: Option<(u64, Seq<char>)>) -> Option<
    (u64, Seq<char>),
>
    decreases files.len(),
{
    if files.len() == 0 {
        best
    } else {
        let f = files[0];
        let next = if !safe_segment(f.name@) {
            best
        } else {
            match best {
                None => Some((f.size, f.name@)),
                Some((size, _)) => if f.size > size {
                    Some((f.size, f.name@))
                } else {
                    best
                },
            }
        };
        largest(files.drop_first(), next)
    }
}

/// The thread that a report covers: the one that was asked for, or the
/// largest of the thread files where none or `auto` was asked for.
pub open spec fn selected_thread(
    threads_dir: Seq<char>,
    thread: Seq<char>,
    files: Seq<ThreadFile>,
) -> Result<Seq<char>, Seq<char>> {
    let t = trimmed(thread);
    if t.len() == 0 || t == "auto"@ {
        match largest(files, None) {
            Some((_, name)) => Ok(name),
            None => Err("no threads found in "@ + threads_dir),
        }
    } else if safe_segment(t) {
        Ok(t)
    } else {
        Err("invalid thread"@)
    }
}

/// The thread that a report covers. `files` are the thread files of the
/// user in the directory `threads_dir`, in the order in which the directory
/// lists them.
pub fn select_thread(threads_dir: &str, thread: &str, files: &Vec<ThreadFile>) -> (r: Result<
    String,
    String,
>)
    ensures
        match r {
            Ok(name) => selected_thread(threads_dir@, thread@, files@) == Ok::<
                Seq<char>,
                Seq<char>,
            >(name@),
            Err(msg) => selected_thread(threads_dir@, thread@, files@) == Err::<
                Seq<char>,
                Seq<char>,
            >(msg@),
        },
{
    let t = trim(&chars_of(thread));
    if t.len() == 0 || is_str(&t, "auto") {
        let mut best: Option<(u64, usize)> = None;
        let mut i: usize = 0;
        assert(files@.skip(0) =~= files@);
        while i < files.len()
            invariant
                i <= files.len(),
                best matches Some((_, k)) ==> k < i,
                largest(files@, None) == largest(
                    files@.skip(i as int),
                    match best {
                        Some((size, k)) => Some((size, files@[k as int].name@)),
                        None => None,
                    },
                ),
            decreases files.len() - i,
        {
            proof {
                assert(files@.skip(i as int)[0] == files@[i as int]);
                assert(files@.skip(i as int).drop_first() =~= files@.skip(i + 1));
            }
            if is_safe_segment(files[i].name.as_str()) {
                match best {
                    None => {
                        best = Some((files[i].size, i));
                    },
                    Some((size, _)) => {
                        if files[i].size > size {
                            best = Some((files[i].size, i));
                        }
                    },
                }
            }
            i += 1;
        }
        match best {
            Some((_, k)) => Ok(files[k].name.clone()),
            None => Err(crate::text::concat("no threads found in ", threads_dir)),
        }
    } else {
        let name = text_of(&t);
        if is_safe_segment(name.as_str()) {
            Ok(name)
        } else {
            Err("invalid thread".to_owned())
        }
    }
}

/// The words that are too common to stand out.
pub open spec fn stopword_list() -> Seq<Seq<char>> {
    seq![
        "the"@,
        "a"@,
        "an"@,
        "and"@,
        "or"@,
        "but"@,
        "to"@,
        "of"@,
        "in"@,
        "on"@,
        "for"@,
        "with"@,
        "as"@,
        "is"@,
        "are"@,
        "was"@,
        "were"@,
        "be"@,
        "been"@,
        "it"@,
        "that"@,
        "this"@,
        "we"@,
        "you"@,
        "i"@,
        "our"@,
        "your"@,
        "me"@,
        "my"@,
        "they"@,
        "them"@,
        "their"@,
        "at"@,
        "by"@,
        "from"@,
        "not"@,
        "do"@,
        "does"@,
        "did"@,
        "can"@,
        "could"@,
        "should"@,
        "would"@,
        "will"@,
        "just"@,
        "now"@,
        "so"@,
        "if"@,
        "then"@,
    ]
}

/// The words that are too common to stand out.
pub fn stopwords() -> (r: Vec<&'static str>)
    ensures
        r@.len() == stopword_list().len(),
        forall|i: int| 0 <= i < r@.len() ==> (#[trigger] r@[i])@ == stopword_list()[i],
{
    let mut r: Vec<&'static str> = Vec::new();
    r.push("the");
    r.push("a");
    r.push("an");
    r.push("and");
    r.push("or");
    r.push("but");
    r.push("to");
    r.push("of");
    r.push("in");
    r.push("on");
    r.push("for");
    r.push("with");
    r.push("as");
    r.push("is");
    r.push("are");
    r.push("was");
    r.push("were");
    r.push("be");
    r.push("been");
    r.push("it");
    r.push("that");
    r.push("this");
    r.push("we");
    r.push("you");
    r.push("i");
    r.push("our");
    r.push("your");
    r.push("me");
    r.push("my");
    r.push("they");
    r.push("them");
    r.push("their");
    r.push("at");
    r.push("by");
    r.push("from");
    r.push("not");
    r.push("do");
    r.push("does");
    r.push("did");
    r.push("can");
    r.push("could");
    r.push("should");
    r.push("would");
    r.push("will");
    r.push("just");
    r.push("now");
    r.push("so");
    r.push("if");
    r.push("then");
    r
}

/// `c` can stand in a word: an ASCII letter or digit, a hyphen or an
/// underscore.
pub open spec fn word_char(c: char) -> bool {
    ('a' <= c && c <= 'z') || ('A' <= c && c <= 'Z') || ('0' <= c && c <= '9') || c == '-' || c
        == '_'
}

/// The parts of a text between the characters that cannot stand in a word,
/// empty parts among them.
pub open spec fn word_parts(s: Seq<char>) -> Seq<Seq<char>>
    decreases s.len(),
{
    if s.len() == 0 {
        seq![Seq::<char>::empty()]
    } else {
        let init = word_parts(s.drop_last());
        if !word_char(s.last()) {
            init.push(Seq::<char>::empty())
        } else {
            init.drop_last().push(init.last().push(s.last()))
        }
    }
}

/// A word stands out: it has four characters at least and is no stopword.
pub open spec fn stands_out(w: Seq<char>) -> bool {
    w.len() >= 4 && !stopword_list().contains(w)
}

/// The counts after the words of `parts` that stand out were counted, in
/// order.
pub open spec fn counted(counts: Seq<(Seq<char>, u64)>, parts: Seq<Seq<char>>) -> Seq<
    (Seq<char>, u64),
>
    decreases parts.len(),
{
    if parts.len() == 0 {
        counts
    } else {
        let init = counted(counts, parts.drop_last());
        if stands_out(parts.last()) {
            with_count(init, parts.last(), 1)
        } else {
            init
        }
    }
}

/// The counts after the words of the texts that stand out were counted,
/// each text read in lowercase.
pub open spec fn counted_texts(texts: Seq<Seq<char>>) -> Seq<(Seq<char>, u64)>
    decreases texts.len(),
{
    if texts.len() == 0 {
        Seq::<(Seq<char>, u64)>::empty()
    } else {
        counted(counted_texts(texts.drop_last()), word_parts(lowercase(texts.last())))
    }
}

/// Whether `w` is a stopword.
fn is_stopword(list: &Vec<&'static str>, w: &Vec<char>) -> (r: bool)
    requires
        list@.len() == stopword_list().len(),
        forall|i: int| 0 <= i < list@.len() ==> (#[trigger] list@[i])@ == stopword_list()[i],
    ensures
        r == stopword_list().contains(w@),
{
    let mut i: usize = 0;
    while i < list.len()
        invariant
            i <= list.len(),
            list@.len() == stopword_list().len(),
            forall|j: int| 0 <= j < list@.len() ==> (#[trigger] list@[j])@ == stopword_list()[j],
            forall|j: int| 0 <= j < i ==> stopword_list()[j] != w@,
        decreases list.len() - i,
    {
        if is_str(w, list[i]) {
            assert(stopword_list()[i as int] == w@);
            return true;
        }
        i += 1;
    }
    false
}

/// Counts the words of an already lowercased text that stand out.
pub fn count_words(counts: &mut Vec<CountedItem>, lowered: &str)
    ensures
        counts_view(final(counts)@) == counted(counts_view(old(counts)@), word_parts(lowered@)),
{
    let list = stopwords();
    let s = chars_of(lowered);
    let mut current: Vec<char> = Vec::new();
    let ghost start = counts_view(counts@);
    let mut i: usize = 0;
    assert(s@.take(0) =~= Seq::<char>::empty());
    // what is counted so far: all parts but the one that is being read
    assert(word_parts(s@.take(0)).drop_last() =~= Seq::<Seq<char>>::empty());
    while i < s.len()
        invariant
            i <= s.len(),
            s@ == lowered@,
            list@.len() == stopword_list().len(),
            forall|j: int| 0 <= j < list@.len() ==> (#[trigger] list@[j])@ == stopword_list()[j],
            word_parts(s@.take(i as int)).len() >= 1,
            current@ == word_parts(s@.take(i as int)).last(),
            counts_view(counts@) == counted(start, word_parts(s@.take(i as int)).drop_last()),
        decreases s.len() - i,
    {
        let ghost before = word_parts(s@.take(i as int));
        proof {
            assert(s@.take(i + 1).drop_last() =~= s@.take(i as int));
            assert(s@.take(i + 1).last() == s@[i as int]);
        }
        let c = s[i];
        if ('a' <= c && c <= 'z') || ('A' <= c && c <= 'Z') || ('0' <= c && c <= '9') || c == '-'
            || c == '_' {
            current.push(c);
            proof {
                let next = word_parts(s@.take(i + 1));
                assert(next == before.drop_last().push(before.last().push(c)));
                assert(next.drop_last() =~= before.drop_last());
            }
        } else {
            proof {
                let next = word_parts(s@.take(i + 1));
                assert(next == before.push(Seq::<char>::empty()));
                assert(next.drop_last() =~= before);
                assert(before.drop_last().push(before.last()) =~= before);
            }
            if current.len() >= 4 && !is_stopword(&list, &current) {
                let w = text_of(&current);
                add_count(counts, w.as_str(), 1);
            }
            current = Vec::new();
        }
        i += 1;
    }
    proof {
        assert(s@.take(s@.len() as int) =~= s@);
        let all = word_parts(s@);
        assert(all.drop_last().push(all.last()) =~= all);
    }
    if current.len() >= 4 && !is_stopword(&list, &current) {
        let w = text_of(&current);
        add_count(counts, w.as_str(), 1);
    }
}

/// How often each word that stands out occurs in the texts, in the order in
/// which the words first occur.
pub fn keyword_counts(user_texts: &Vec<String>) -> (counts: Vec<CountedItem>)
    ensures
        counts_view(counts@) == counted_texts(views(user_texts@)),
{
    let mut counts: Vec<CountedItem> = Vec::new();
    let ghost all = views(user_texts@);
    let mut i: usize = 0;
    assert(all.take(0) =~= Seq::<Seq<char>>::empty());
    assert(counts_view(counts@) =~= Seq::<(Seq<char>, u64)>::empty());
    while i < user_texts.len()
        invariant
            i <= user_texts.len(),
            all == views(user_texts@),
            counts_view(counts@) == counted_texts(all.take(i as int)),
        decreases user_texts.len() - i,
    {
        proof {
            assert(all.take(i + 1).drop_last() =~= all.take(i as int));
            assert(all.take(i + 1).last() == user_texts@[i as int]@);
        }
        let lowered = user_texts[i].as_str().to_lowercase();
        count_words(&mut counts, lowered.as_str());
        i += 1;
    }
    assert(all.take(user_texts@.len() as int) =~= all);
    counts
}

/// `top` are the keywords of the texts: of the counts of the words that
/// stand out, ranked with the more frequent first and equally frequent ones
/// by the order of strings, the first two dozen.
pub open spec fn top_keywords(top: Seq<CountedItem>, texts: Seq<Seq<char>>) -> bool {
    exists|counts: Seq<CountedItem>| #[trigger]
        counts_view(counts) == counted_texts(texts) && top_of(top, counts, 24)
}

/// The words that stand out in the texts: the two dozen that occur most
/// often, the more frequent first and equally frequent ones by the order of
/// strings.
pub fn keywords(user_texts: &Vec<String>) -> (top: Vec<CountedItem>)
    ensures
        top_keywords(top@, views(user_texts@)),
{
    let counts = keyword_counts(user_texts);
    let ghost c = counts@;
    let top = top_n(counts, 24);
    assert(counts_view(c) == counted_texts(views(user_texts@)) && top_of(top@, c, 24));
    top
}

/// The content of an event as a report reads it: on one line, and no more
/// than twelve hundred characters of it.
pub open spec fn report_content(v: JsonView) -> Seq<char> {
    truncated(on_one_line(field_text(v, "content"@)), 1200)
}

/// An event of a thread goes into a report: it has a role and names a run
/// under a safe identifier.
pub open spec fn in_report(v: JsonView) -> bool {
    &&& field_text(v, "role"@).len() > 0
    &&& field_text(v, "run_id"@).len() > 0
    &&& safe_segment(field_text(v, "run_id"@))
}

/// The event of a report that an event of a thread gives, where it goes
/// into the report.
pub fn report_event(v: &Json) -> (r: Option<ThreadEvent>)
    ensures
        r is Some <==> in_report(v@),
        r matches Some(ev) ==> {
            &&& ev.ts@ == field_text(v@, "ts"@)
            &&& ev.role@ == field_text(v@, "role"@)
            &&& ev.run_id@ == field_text(v@, "run_id"@)
            &&& ev.content@ == report_content(v@)
        },
{
    proof {
        reveal_strlit("");
    }
    let ts = match v.str_at("ts") {
        Some(s) => s,
        None => "",
    };
    let role = match v.str_at("role") {
        Some(s) => s,
        None => "",
    };
    let run_id = match v.str_at("run_id") {
        Some(s) => s,
        None => "",
    };
    let raw = match v.str_at("content") {
        Some(s) => s,
        None => "",
    };
    assert(ts@ =~= field_text(v@, "ts"@));
    assert(role@ =~= field_text(v@, "role"@));
    assert(run_id@ =~= field_text(v@, "run_id"@));
    assert(raw@ =~= field_text(v@, "content"@));
    if role.unicode_len() == 0 || run_id.unicode_len() == 0 || !is_safe_segment(run_id) {
        return None;
    }
    Some(
        ThreadEvent {
            ts: ts.to_owned(),
            role: role.to_owned(),
            content: text_of(&truncate(&one_line_of(&chars_of(raw)), 1200)),
            run_id: run_id.to_owned(),
        },
    )
}

/// The text of a node as a report shows it: the first `content_chars`
/// characters of its content.
pub open spec fn shown_text(node: GraphNode, content_chars: usize) -> Seq<char> {
    truncated(node.event.content@, content_chars as nat)
}

/// How often each role occurs among the first `n` nodes, in the order in
/// which the roles first occur.
pub open spec fn role_counts(nodes: Seq<GraphNode>, n: int) -> Seq<(Seq<char>, u64)>
    decreases n,
{
    if n <= 0 {
        Seq::<(Seq<char>, u64)>::empty()
    } else {
        with_count(role_counts(nodes, n - 1), nodes[n - 1].event.role@, 1)
    }
}

/// The texts of the nodes of the user among the first `n` nodes, as the
/// report shows them.
pub open spec fn user_texts(nodes: Seq<GraphNode>, n: int, content_chars: usize) -> Seq<Seq<char>>
    decreases n,
{
    if n <= 0 {
        Seq::<Seq<char>>::empty()
    } else if nodes[n - 1].event.role@ == "user"@ {
        user_texts(nodes, n - 1, content_chars).push(shown_text(nodes[n - 1], content_chars))
    } else {
        user_texts(nodes, n - 1, content_chars)
    }
}

/// The level, or zero where there is none.
pub open spec fn level_or_zero(o: Option<i64>) -> int {
    match o {
        Some(x) => x as int,
        None => 0,
    }
}

/// How a report shows the outcome of a run.
pub open spec fn outcome_pill(ok: Option<bool>) -> Seq<char> {
    match ok {
        Some(true) => "<span class=\"pill ok\">ok</span>"@,
        Some(false) => "<span class=\"pill fail\">fail</span>"@,
        None => "<span class=\"pill\">?</span>"@,
    }
}

/// What the page searches a row of the timeline by: the role, the goal, the
/// run and the text, with a blank between them.
pub open spec fn row_search_text(node: GraphNode, content_chars: usize) -> Seq<char> {
    node.event.role@ + " "@ + text_or_empty(node.goal_id) + " "@ + node.event.run_id@ + " "@
        + shown_text(node, content_chars)
}

/// The row of a node in the timeline of a report.
pub open spec fn report_row(node: GraphNode, content_chars: usize) -> Seq<char> {
    "<tr data-t=\""@ + html_escaped(row_search_text(node, content_chars)) + "\"><td>"@
        + html_escaped(node.event.role@) + "</td><td><code>"@ + html_escaped(
        text_or_empty(node.goal_id),
    ) + "</code></td><td><code>"@ + html_escaped(node.event.run_id@) + "</code></td><td>"@
        + outcome_pill(node.ok) + "</td><td><span class=\"pill\">T "@ + fixed(
        level_or_zero(node.bits.t),
        2,
    ) + "</span><span class=\"pill\">U "@ + fixed(level_or_zero(node.bits.u), 2)
        + "</span><span class=\"pill\">E "@ + fixed(level_or_zero(node.bits.e), 2)
        + "</span></td><td>"@ + html_escaped(shown_text(node, content_chars))
        + "</td><td><a href=\""@ + html_escaped(receipt_url_of(node.event.run_id@))
        + "\" target=\"_blank\" rel=\"noreferrer\">receipt</a>"@ + view_link(node)
        + "</td></tr>\n"@
}

/// The rows of the first `n` nodes.
pub open spec fn report_rows(nodes: Seq<GraphNode>, n: int, content_chars: usize) -> Seq<char>
    decreases n,
{
    if n <= 0 {
        Seq::<char>::empty()
    } else {
        report_rows(nodes, n - 1, content_chars) + report_row(nodes[n - 1], content_chars)
    }
}

/// A keyword as the page shows it: the word, and how often it occurs.
pub open spec fn keyword_pill(item: CountedItem) -> Seq<char> {
    "<span class=\"pill\">"@ + html_escaped(item.key@) + " ("@ + decimal(item.count as nat)
        + ")</span> "@
}

/// The first `n` keywords as the page shows them.
pub open spec fn keyword_pills(top: Seq<CountedItem>, n: int) -> Seq<char>
    decreases n,
{
    if n <= 0 {
        Seq::<char>::empty()
    } else {
        keyword_pills(top, n - 1) + keyword_pill(top[n - 1])
    }
}

/// A level with two decimals, zero where there is none.
fn shown_level(o: Option<i64>) -> (out: Vec<char>)
    ensures
        out@ == fixed(level_or_zero(o), 2),
{
    let x = match o {
        Some(x) => x,
        None => 0,
    };
    let mut out: Vec<char> = Vec::new();
    push_fixed(&mut out, x, 2);
    assert(out@ =~= fixed(x as int, 2));
    out
}

/// The row of a node in the timeline of a report.
fn report_row_of(node: &GraphNode, content_chars: usize) -> (out: Vec<char>)
    ensures
        out@ == report_row(*node, content_chars),
{
    let goal = or_empty(&node.goal_id);
    let text = truncate(&chars_of(node.event.content.as_str()), content_chars);
    let url = receipt_url(node.event.run_id.as_str());
    let mut search = chars_of(node.event.role.as_str());
    push_str(&mut search, " ");
    push_all(&mut search, &goal);
    push_str(&mut search, " ");
    push_str(&mut search, node.event.run_id.as_str());
    push_str(&mut search, " ");
    push_all(&mut search, &text);
    let pill: Vec<char> = match node.ok {
        Some(true) => chars_of("<span class=\"pill ok\">ok</span>"),
        Some(false) => chars_of("<span class=\"pill fail\">fail</span>"),
        None => chars_of("<span class=\"pill\">?</span>"),
    };
    let mut out = chars_of("<tr data-t=\"");
    push_all(&mut out, &escaped(&search));
    push_str(&mut out, "\"><td>");
    push_all(&mut out, &escaped(&chars_of(node.event.role.as_str())));
    push_str(&mut out, "</td><td><code>");
    push_all(&mut out, &escaped(&goal));
    push_str(&mut out, "</code></td><td><code>");
    push_all(&mut out, &escaped(&chars_of(node.event.run_id.as_str())));
    push_str(&mut out, "</code></td><td>");
    push_all(&mut out, &pill);
    push_str(&mut out, "</td><td><span class=\"pill\">T ");
    push_all(&mut out, &shown_level(node.bits.t));
    push_str(&mut out, "</span><span class=\"pill\">U ");
    push_all(&mut out, &shown_level(node.bits.u));
    push_str(&mut out, "</span><span class=\"pill\">E ");
    push_all(&mut out, &shown_level(node.bits.e));
    push_str(&mut out, "</span></td><td>");
    push_all(&mut out, &escaped(&text));
    push_str(&mut out, "</td><td><a href=\"");
    push_all(&mut out, &escaped(&chars_of(url.as_str())));
    push_str(&mut out, "\" target=\"_blank\" rel=\"noreferrer\">receipt</a>");
    push_all(&mut out, &view_link_of(node));
    push_str(&mut out, "</td></tr>\n");
    out
}

/// The timeline of a report: one row for each node.
pub fn report_rows_html(nodes: &Vec<GraphNode>, content_chars: usize) -> (r: String)
    ensures
        r@ == report_rows(nodes@, nodes@.len() as int, content_chars),
{
    let mut out: Vec<char> = Vec::new();
    let mut i: usize = 0;
    while i < nodes.len()
        invariant
            i <= nodes.len(),
            out@ == report_rows(nodes@, i as int, content_chars),
        decreases nodes.len() - i,
    {
        push_all(&mut out, &report_row_of(&nodes[i], content_chars));
        i += 1;
    }
    text_of(&out)
}

/// The keywords as the page shows them.
pub fn keywords_html(top: &Vec<CountedItem>) -> (r: String)
    ensures
        r@ == keyword_pills(top@, top@.len() as int),
{
    let mut out: Vec<char> = Vec::new();
    let mut i: usize = 0;
    while i < top.len()
        invariant
            i <= top.len(),
            out@ == keyword_pills(top@, i as int),
        decreases top.len() - i,
    {
        let mut pill = chars_of("<span class=\"pill\">");
        push_all(&mut pill, &escaped(&chars_of(top[i].key.as_str())));
        push_str(&mut pill, " (");
        push_all(&mut pill, &decimal_of(top[i].count));
        push_str(&mut pill, ")</span> ");
        push_all(&mut out, &pill);
        i += 1;
    }
    text_of(&out)
}

/// How often each role occurs among the nodes.
pub fn count_roles(nodes: &Vec<GraphNode>) -> (counts: Vec<CountedItem>)
    ensures
        counts_view(counts@) == role_counts(nodes@, nodes@.len() as int),
{
    let mut counts: Vec<CountedItem> = Vec::new();
    let mut i: usize = 0;
    assert(counts_view(counts@) =~= Seq::<(Seq<char>, u64)>::empty());
    while i < nodes.len()
        invariant
            i <= nodes.len(),
            counts_view(counts@) == role_counts(nodes@, i as int),
        decreases nodes.len() - i,
    {
        add_count(&mut counts, nodes[i].event.role.as_str(), 1);
        i += 1;
    }
    counts
}

/// The texts of the nodes of the user, as the report shows them.
pub fn texts_of_user(nodes: &Vec<GraphNode>, content_chars: usize) -> (texts: Vec<String>)
    ensures
        views(texts@) == user_texts(nodes@, nodes@.len() as int, content_chars),
{
    let mut texts: Vec<String> = Vec::new();
    let mut i: usize = 0;
    assert(views(texts@) =~= Seq::<Seq<char>>::empty());
    while i < nodes.len()
        invariant
            i <= nodes.len(),
            views(texts@) == user_texts(nodes@, i as int, content_chars),
        decreases nodes.len() - i,
    {
        if str_eq(nodes[i].event.role.as_str(), "user") {
            let ghost before = views(texts@);
            let text = text_of(&truncate(&chars_of(nodes[i].event.content.as_str()), content_chars));
            texts.push(text);
            assert(views(texts@) =~= before.push(shown_text(nodes@[i as int], content_chars)));
        }
        i += 1;
    }
    texts
}

/// The node `i` of a report as a structured value.
pub open spec fn run_view(node: GraphNode, i: int, content_chars: usize) -> JsonView {
    JsonView::Object(
        seq![
            ("i"@, JsonView::Int(i + 1)),
            ("ts"@, JsonView::Text(node.event.ts@)),
            ("role"@, JsonView::Text(node.event.role@)),
            ("run_id"@, JsonView::Text(node.event.run_id@)),
            ("goal_id"@, opt_text_view(opt_view(node.goal_id))),
            ("actual_success"@, opt_bool_view(node.ok)),
            ("bits"@, bits_lite_view(node.bits)),
            ("view_url"@, opt_text_view(opt_view(node.view_url))),
            ("text"@, JsonView::Text(shown_text(node, content_chars))),
            ("receipt_url"@, JsonView::Text(receipt_url_of(node.event.run_id@))),
        ],
    )
}

/// Counts as a structured value: an object with one number under each key.
pub open spec fn counts_object(counts: Seq<CountedItem>) -> JsonView {
    JsonView::Object(
        Seq::new(counts.len(), |i: int| (counts[i].key@, JsonView::Int(counts[i].count as int))),
    )
}

/// Counts as a structured value: a list of pairs of key and number.
pub open spec fn counts_list(counts: Seq<CountedItem>) -> JsonView {
    JsonView::List(
        Seq::new(
            counts.len(),
            |i: int|
                JsonView::List(
                    seq![JsonView::Text(counts[i].key@), JsonView::Int(counts[i].count as int)],
                ),
        ),
    )
}

/// A report as a structured value: the user, the thread, the number of
/// nodes, how often each role occurs, the keywords, and the nodes.
pub open spec fn report_view(
    user_id: Seq<char>,
    thread: Seq<char>,
    nodes: Seq<GraphNode>,
    roles: Seq<CountedItem>,
    top: Seq<CountedItem>,
    content_chars: usize,
) -> JsonView {
    JsonView::Object(
        seq![
            ("user_id"@, JsonView::Text(user_id)),
            ("thread"@, JsonView::Text(thread)),
            ("nodes"@, JsonView::Int(nodes.len() as int)),
            ("counts_by_role"@, counts_object(roles)),
            ("top_keywords"@, counts_list(top)),
            (
                "runs"@,
                JsonView::List(
                    Seq::new(nodes.len(), |i: int| run_view(nodes[i], i, content_chars)),
                ),
            ),
        ],
    )
}

/// The node `i` of a report as a structured value.
fn run_json(node: &GraphNode, i: usize, content_chars: usize) -> (r: Json)
    requires
        i < usize::MAX,
    ensures
        r@ == run_view(*node, i as int, content_chars),
{
    let ok = match node.ok {
        Some(b) => Json::Bool(b),
        None => Json::Null,
    };
    let text = text_of(&truncate(&chars_of(node.event.content.as_str()), content_chars));
    let url = receipt_url(node.event.run_id.as_str());
    let mut e: Vec<(String, Json)> = Vec::new();
    put(&mut e, "i", Json::Nat(i as u64 + 1));
    put(&mut e, "ts", Json::text(node.event.ts.as_str()));
    put(&mut e, "role", Json::text(node.event.role.as_str()));
    put(&mut e, "run_id", Json::text(node.event.run_id.as_str()));
    put(&mut e, "goal_id", opt_text_json(&node.goal_id));
    put(&mut e, "actual_success", ok);
    put(&mut e, "bits", bits_lite_json(&node.bits));
    put(&mut e, "view_url", opt_text_json(&node.view_url));
    put(&mut e, "text", Json::Text(text));
    put(&mut e, "receipt_url", Json::Text(url));
    assert(entries_view(e@) =~= run_view(*node, i as int, content_chars)->Object_0);
    Json::Object(e)
}

/// Counts as an object with one number under each key.
fn counts_object_json(counts: &Vec<CountedItem>) -> (r: Json)
    ensures
        r@ == counts_object(counts@),
{
    let mut e: Vec<(String, Json)> = Vec::new();
    let mut i: usize = 0;
    while i < counts.len()
        invariant
            i <= counts.len(),
            e@.len() == i,
            forall|j: int|
                0 <= j < i ==> (#[trigger] e@[j]).0@ == counts@[j].key@ && e@[j].1@
                    == JsonView::Int(counts@[j].count as int),
        decreases counts.len() - i,
    {
        e.push((counts[i].key.clone(), Json::Nat(counts[i].count)));
        i += 1;
    }
    assert(entries_view(e@) =~= counts_object(counts@)->Object_0);
    Json::Object(e)
}

/// Counts as a list of pairs of key and number.
fn counts_list_json(counts: &Vec<CountedItem>) -> (r: Json)
    ensures
        r@ == counts_list(counts@),
{
    let mut list: Vec<Json> = Vec::new();
    let mut i: usize = 0;
    while i < counts.len()
        invariant
            i <= counts.len(),
            list@.len() == i,
            forall|j: int|
                0 <= j < i ==> (#[trigger] list@[j])@ == JsonView::List(
                    seq![JsonView::Text(counts@[j].key@), JsonView::Int(counts@[j].count as int)],
                ),
        decreases counts.len() - i,
    {
        let mut pair: Vec<Json> = Vec::new();
        pair.push(Json::text(counts[i].key.as_str()));
        pair.push(Json::Nat(counts[i].count));
        assert(items_view(pair@) =~= seq![
            JsonView::Text(counts@[i as int].key@),
            JsonView::Int(counts@[i as int].count as int),
        ]);
        list.push(Json::List(pair));
        i += 1;
    }
    assert(items_view(list@) =~= counts_list(counts@)->List_0);
    Json::List(list)
}

/// A report as a structured value.
pub fn report_json(
    user_id: &str,
    thread: &str,
    nodes: &Vec<GraphNode>,
    roles: &Vec<CountedItem>,
    top: &Vec<CountedItem>,
    content_chars: usize,
) -> (r: Json)
    ensures
        r@ == report_view(user_id@, thread@, nodes@, roles@, top@, content_chars),
{
    let mut runs: Vec<Json> = Vec::new();
    let mut i: usize = 0;
    while i < nodes.len()
        invariant
            i <= nodes.len(),
            runs@.len() == i,
            forall|j: int|
                0 <= j < i ==> (#[trigger] runs@[j])@ == run_view(nodes@[j], j, content_chars),
        decreases nodes.len() - i,
    {
        runs.push(run_json(&nodes[i], i, content_chars));
        i += 1;
    }
    assert(items_view(runs@) =~= Seq::new(
        nodes@.len(),
        |i: int| run_view(nodes@[i], i, content_chars),
    ));
    let mut e: Vec<(String, Json)> = Vec::new();
    put(&mut e, "user_id", Json::text(user_id));
    put(&mut e, "thread", Json::text(thread));
    put(&mut e, "nodes", Json::Nat(nodes.len() as u64));
    put(&mut e, "counts_by_role", counts_object_json(roles));
    put(&mut e, "top_keywords", counts_list_json(top));
    put(&mut e, "runs", Json::List(runs));
    assert(entries_view(e@) =~= report_view(
        user_id@,
        thread@,
        nodes@,
        roles@,
        top@,
        content_chars,
    )->Object_0);
    Json::Object(e)
}

/// What is written of a thread report into its directory: the report as a
/// structured value and its page, with the number of its nodes and the
/// thread it covers.
#[derive(Debug)]
pub struct ReportFiles {
    pub out_dir: String,
    pub report: Json,
    pub index_html: String,
    pub nodes: usize,
    pub thread: String,
}

/// Why a report cannot be written, where it cannot: one of its identifiers
/// is no safe segment, or the thread gave no event.
pub open spec fn report_error(run_id: Seq<char>, user_id: Seq<char>, nodes: nat) -> Option<
    Seq<char>,
> {
    if !safe_segment(run_id) {
        Some("invalid __run_id"@)
    } else if !safe_segment(user_id) {
        Some("invalid user_id"@)
    } else if nodes == 0 {
        Some("thread has no parseable events"@)
    } else {
        None
    }
}

/// `f` is what is written of the report of the run `run_id` on the thread
/// `thread` of a user with the nodes `nodes`, the counts `roles` of their
/// roles and the keywords `top`, under the directory `root`.
pub open spec fn report_files(
    f: ReportFiles,
    root: Seq<char>,
    run_id: Seq<char>,
    user_id: Seq<char>,
    thread: Seq<char>,
    nodes: Seq<GraphNode>,
    roles: Seq<CountedItem>,
    top: Seq<CountedItem>,
    content_chars: usize,
) -> bool {
    &&& f.out_dir@ == joined(joined(root, "runs/threads"@), run_id)
    &&& f.report@ == report_view(user_id, thread, nodes, roles, top, content_chars)
    &&& f.index_html@ == report_html_text(
        run_id,
        user_id,
        thread,
        f.nodes,
        keyword_pills(top, top.len() as int),
        report_rows(nodes, nodes.len() as int, content_chars),
    )
    &&& f.nodes == nodes.len()
    &&& f.thread@ == thread
}

/// The report of the run `external_run_id` on the thread `thread` of the
/// user of `opts`, whose events with the receipts of their runs are
/// `nodes`. The report shows of each event no more characters than `opts`
/// allows within its bounds, and takes its keywords from what it shows of
/// the events of the user.
pub fn generate(
    root: &str,
    external_run_id: &str,
    opts: &ThreadReportOpts,
    thread: &str,
    nodes: &Vec<GraphNode>,
) -> (r: Result<ReportFiles, String>)
    ensures
        match r {
            Ok(f) => report_error(external_run_id@, opts.user_id@, nodes@.len()) is None
                && exists|roles: Seq<CountedItem>, top: Seq<CountedItem>|
                #![trigger top_keywords(top, user_texts(nodes@, nodes@.len() as int, bounded_count(opts.content_chars, 60, 600))), counts_view(roles)]
                {
                    &&& counts_view(roles) == role_counts(nodes@, nodes@.len() as int)
                    &&& top_keywords(
                        top,
                        user_texts(
                            nodes@,
                            nodes@.len() as int,
                            bounded_count(opts.content_chars, 60, 600),
                        ),
                    )
                    &&& report_files(
                        f,
                        root@,
                        external_run_id@,
                        opts.user_id@,
                        thread@,
                        nodes@,
                        roles,
                        top,
                        bounded_count(opts.content_chars, 60, 600),
                    )
                },
            Err(msg) => report_error(external_run_id@, opts.user_id@, nodes@.len()) == Some(msg@),
        },
{
    if !is_safe_segment(external_run_id) {
        return Err("invalid __run_id".to_owned());
    }
    if !is_safe_segment(opts.user_id.as_str()) {
        return Err("invalid user_id".to_owned());
    }
    if nodes.len() == 0 {
        return Err("thread has no parseable events".to_owned());
    }
    let content_chars = bound_count(opts.content_chars, 60, 600);
    let roles = count_roles(nodes);
    let texts = texts_of_user(nodes, content_chars);
    let top = keywords(&texts);
    let threads = join_path(root, "runs/threads");
    let kw = keywords_html(&top);
    let rows = report_rows_html(nodes, content_chars);
    let f = ReportFiles {
        out_dir: join_path(threads.as_str(), external_run_id),
        report: report_json(opts.user_id.as_str(), thread, nodes, &roles, &top, content_chars),
        index_html: report_html(
            external_run_id,
            opts.user_id.as_str(),
            thread,
            nodes.len(),
            kw.as_str(),
            rows.as_str(),
        ),
        nodes: nodes.len(),
        thread: thread.to_owned(),
    };
    proof {
        assert(counts_view(roles@) == role_counts(nodes@, nodes@.len() as int));
        assert(top_keywords(top@, user_texts(nodes@, nodes@.len() as int, content_chars)));
        assert(report_files(
            f,
            root@,
            external_run_id@,
            opts.user_id@,
            thread@,
            nodes@,
            roles@,
            top@,
            content_chars,
        ));
    }
    Ok(f)
}

} // verus!
