//! How the behaviors that leave artifacts end: the bits they settle on, the
//! files they deliver and the evidence they give.

use vstd::prelude::*;
use vstd::utf8::encode_utf8;
use crate::ambient::{sha256_hex, sha256_hex_of};
use crate::json::{entries_view, put, Json, JsonView};
use crate::level::{decimal, push_decimal};
use crate::text::{
    byte_len, chars_of, first_line, first_line_of, join_path, joined, line_count, lines_in, prefix,
    prefix_of, push_all, push_str, str_eq, text_of, views,
};
use super::executor::ExecResult;
use super::graphs::ThreadGraphResult;
use super::kernel::{ExtendedBits, KernelLoop};
use super::run::{
    check_complete, contract_violation, manifest_is, run_id_from, run_id_of, surface, Finished,
};
use super::thread_report::ThreadReportResult;
use super::types::{surfaced, Manifest};
use super::wiki::WikiResult;

verus! {

/// The bits `bits` with uncertainty, error and trust set anew.
pub open spec fn settled(bits: ExtendedBits, u: i64, e: i64, t: i64) -> ExtendedBits {
    ExtendedBits { u, e, t, ..bits }
}

/// `r` is how a run ends that leaves the kernel as it is: it fails where its
/// bits are not complete, and else ends with these bits, no proposal, and a
/// manifest of these deliverables and this evidence.
pub open spec fn plainly_finished(
    bits: ExtendedBits,
    goal: Seq<char>,
    run_id: Seq<char>,
    deliverables: Seq<Seq<char>>,
    evidence: JsonView,
    r: Result<Finished, String>,
) -> bool {
    match r {
        Err(msg) => !bits.complete() && msg@ == contract_violation(bits),
        Ok(f) => {
            &&& bits.complete()
            &&& f.bits == bits
            &&& f.proposal is None
            &&& manifest_is(f.manifest, run_id, goal, deliverables, evidence, surfaced(bits))
        },
    }
}

/// Ends a run that leaves the kernel as it is.
pub fn finish_plainly(
    control: &KernelLoop,
    bits: ExtendedBits,
    goal_id: String,
    run_id: String,
    deliverables: Vec<String>,
    evidence: Json,
) -> (r: Result<Finished, String>)
    ensures
        plainly_finished(bits, goal_id@, run_id@, views(deliverables@), evidence@, r),
{
    match check_complete(control, &bits) {
        Err(e) => Err(e),
        Ok(()) => {
            let manifest = Manifest {
                run_id,
                goal_id,
                deliverables,
                evidence,
                bits: surface(&bits),
            };
            Ok(Finished { manifest, bits, proposal: None })
        },
    }
}

/// The address under which a file of a run is served.
pub open spec fn served(area: Seq<char>, run_id: Seq<char>, file: Seq<char>) -> Seq<char> {
    "/runs/"@ + area + "/"@ + run_id + "/"@ + file
}

/// The address under which a file of a run is served.
pub fn served_at(area: &str, run_id: &str, file: &str) -> (r: String)
    ensures
        r@ == served(area@, run_id@, file@),
{
    let mut out: Vec<char> = Vec::new();
    push_str(&mut out, "/runs/");
    push_str(&mut out, area);
    push_str(&mut out, "/");
    push_str(&mut out, run_id);
    push_str(&mut out, "/");
    push_str(&mut out, file);
    text_of(&out)
}

/// The paths of the files `names` in the directory `dir`.
pub open spec fn files_in(dir: Seq<char>, names: Seq<Seq<char>>) -> Seq<Seq<char>> {
    Seq::new(names.len(), |i: int| joined(dir, names[i]))
}

/// The evidence of a wiki snapshot.
pub open spec fn wiki_evidence(res: WikiResult, run_id: Seq<char>, triggered: bool) -> JsonView {
    JsonView::Object(
        seq![
            ("actual_success"@, JsonView::Bool(true)),
            ("expected_success"@, JsonView::Bool(true)),
            ("files_count"@, JsonView::Int(res.files_count as int)),
            ("index_html_url"@, JsonView::Text(served("wiki"@, run_id, "index.html"@))),
            ("meta2_triggered"@, JsonView::Bool(triggered)),
            ("readme_copied"@, JsonView::Bool(res.readme_copied)),
            ("static_html_url"@, JsonView::Text(served("wiki"@, run_id, "static.html"@))),
            (
                "stdout"@,
                JsonView::Text(
                    "[wiki.generate] wrote "@ + res.out_dir@ + " ("@ + decimal(
                        res.files_count as nat,
                    ) + " files, "@ + decimal(res.topfiles_count as nat) + " topfiles)"@,
                ),
            ),
            ("topfiles_count"@, JsonView::Int(res.topfiles_count as int)),
            ("wiki_dir"@, JsonView::Text(res.out_dir@)),
        ],
    )
}

/// The files that a wiki snapshot delivers.
pub open spec fn wiki_files() -> Seq<Seq<char>> {
    seq![
        "index.html"@,
        "static.html"@,
        "index.md"@,
        "files.txt"@,
        "topfiles.txt"@,
        "folder_summary.md"@,
    ]
}

/// Ends a wiki run: low uncertainty, no error, high trust.
pub fn finish_wiki(
    control: &KernelLoop,
    bits: ExtendedBits,
    goal_id: String,
    external_run_id: &str,
    res: WikiResult,
    fresh_id: &str,
) -> (r: Result<Finished, String>)
    ensures
        plainly_finished(
            settled(bits, 200_000, 0, 950_000),
            goal_id@,
            run_id_of(fresh_id@),
            files_in(res.out_dir@, wiki_files()),
            wiki_evidence(res, external_run_id@, bits.m > 0),
            r,
        ),
{
    let mut b = bits;
    b.u = 200_000;
    b.e = 0;
    b.t = 950_000;
    let dir = res.out_dir.as_str();
    let mut deliverables: Vec<String> = Vec::new();
    deliverables.push(join_path(dir, "index.html"));
    deliverables.push(join_path(dir, "static.html"));
    deliverables.push(join_path(dir, "index.md"));
    deliverables.push(join_path(dir, "files.txt"));
    deliverables.push(join_path(dir, "topfiles.txt"));
    deliverables.push(join_path(dir, "folder_summary.md"));
    assert(views(deliverables@) =~= files_in(res.out_dir@, wiki_files()));
    let mut line: Vec<char> = Vec::new();
    push_str(&mut line, "[wiki.generate] wrote ");
    push_str(&mut line, dir);
    push_str(&mut line, " (");
    push_decimal(&mut line, res.files_count as u64);
    push_str(&mut line, " files, ");
    push_decimal(&mut line, res.topfiles_count as u64);
    push_str(&mut line, " topfiles)");
    let mut ev: Vec<(String, Json)> = Vec::new();
    put(&mut ev, "actual_success", Json::Bool(true));
    put(&mut ev, "expected_success", Json::Bool(true));
    put(&mut ev, "files_count", Json::Nat(res.files_count as u64));
    put(&mut ev, "index_html_url", Json::Text(served_at("wiki", external_run_id, "index.html")));
    put(&mut ev, "meta2_triggered", Json::Bool(b.m > 0));
    put(&mut ev, "readme_copied", Json::Bool(res.readme_copied));
    put(&mut ev, "static_html_url", Json::Text(served_at("wiki", external_run_id, "static.html")));
    put(&mut ev, "stdout", Json::Text(text_of(&line)));
    put(&mut ev, "topfiles_count", Json::Nat(res.topfiles_count as u64));
    put(&mut ev, "wiki_dir", Json::text(dir));
    assert(entries_view(ev@) =~= wiki_evidence(res, external_run_id@, bits.m > 0)->Object_0);
    finish_plainly(control, b, goal_id, run_id_from(fresh_id), deliverables, Json::Object(ev))
}

/// The line that a graph or report run prints.
pub open spec fn wrote_line(label: Seq<char>, out_dir: Seq<char>, nodes: usize) -> Seq<char> {
    "["@ + label + "] wrote "@ + out_dir + " ("@ + decimal(nodes as nat) + " nodes)"@
}

/// The line that a graph or report run prints.
pub fn wrote_line_of(label: &str, out_dir: &str, nodes: usize) -> (r: String)
    ensures
        r@ == wrote_line(label@, out_dir@, nodes),
{
    let mut line: Vec<char> = Vec::new();
    push_str(&mut line, "[");
    push_str(&mut line, label);
    push_str(&mut line, "] wrote ");
    push_str(&mut line, out_dir);
    push_str(&mut line, " (");
    push_decimal(&mut line, nodes as u64);
    push_str(&mut line, " nodes)");
    text_of(&line)
}

/// The files that a graph run delivers.
pub open spec fn graph_files() -> Seq<Seq<char>> {
    seq!["index.html"@, "graph.dot"@, "events.json"@]
}

/// The evidence of a receipts or API graph.
pub open spec fn graph_evidence(
    label: Seq<char>,
    run_id: Seq<char>,
    out_dir: Seq<char>,
    nodes: usize,
    edges: usize,
    triggered: bool,
) -> JsonView {
    JsonView::Object(
        seq![
            ("actual_success"@, JsonView::Bool(true)),
            ("dot_url"@, JsonView::Text(served("graphs"@, run_id, "graph.dot"@))),
            ("edges"@, JsonView::Int(edges as int)),
            ("events_url"@, JsonView::Text(served("graphs"@, run_id, "events.json"@))),
            ("expected_success"@, JsonView::Bool(true)),
            ("index_html_url"@, JsonView::Text(served("graphs"@, run_id, "index.html"@))),
            ("meta2_triggered"@, JsonView::Bool(triggered)),
            ("nodes"@, JsonView::Int(nodes as int)),
            ("stdout"@, JsonView::Text(wrote_line(label, out_dir, nodes))),
        ],
    )
}

/// The evidence of a thread graph.
pub open spec fn thread_graph_evidence(
    res: ThreadGraphResult,
    run_id: Seq<char>,
    user_id: Seq<char>,
    triggered: bool,
) -> JsonView {
    JsonView::Object(
        seq![
            ("actual_success"@, JsonView::Bool(true)),
            ("dot_url"@, JsonView::Text(served("graphs"@, run_id, "graph.dot"@))),
            ("edges"@, JsonView::Int(res.edges as int)),
            ("events_url"@, JsonView::Text(served("graphs"@, run_id, "events.json"@))),
            ("expected_success"@, JsonView::Bool(true)),
            ("index_html_url"@, JsonView::Text(served("graphs"@, run_id, "index.html"@))),
            ("meta2_triggered"@, JsonView::Bool(triggered)),
            ("nodes"@, JsonView::Int(res.nodes as int)),
            ("stdout"@, JsonView::Text(wrote_line("graphs.thread"@, res.out_dir@, res.nodes))),
            ("thread"@, JsonView::Text(res.thread@)),
            ("user_id"@, JsonView::Text(user_id)),
        ],
    )
}

/// The files of a graph run, in its output directory.
pub fn graph_deliverables(out_dir: &str) -> (r: Vec<String>)
    ensures
        views(r@) == files_in(out_dir@, graph_files()),
{
    let mut deliverables: Vec<String> = Vec::new();
    deliverables.push(join_path(out_dir, "index.html"));
    deliverables.push(join_path(out_dir, "graph.dot"));
    deliverables.push(join_path(out_dir, "events.json"));
    assert(views(deliverables@) =~= files_in(out_dir@, graph_files()));
    deliverables
}

/// Ends a thread graph run: low uncertainty, no error, high trust.
pub fn finish_thread_graph(
    control: &KernelLoop,
    bits: ExtendedBits,
    goal_id: String,
    external_run_id: &str,
    user_id: &str,
    res: ThreadGraphResult,
    fresh_id: &str,
) -> (r: Result<Finished, String>)
    ensures
        plainly_finished(
            settled(bits, 200_000, 0, 950_000),
            goal_id@,
            run_id_of(fresh_id@),
            files_in(res.out_dir@, graph_files()),
            thread_graph_evidence(res, external_run_id@, user_id@, bits.m > 0),
            r,
        ),
{
    let mut b = bits;
    b.u = 200_000;
    b.e = 0;
    b.t = 950_000;
    let dir = res.out_dir.as_str();
    let deliverables = graph_deliverables(dir);
    let mut ev: Vec<(String, Json)> = Vec::new();
    put(&mut ev, "actual_success", Json::Bool(true));
    put(&mut ev, "dot_url", Json::Text(served_at("graphs", external_run_id, "graph.dot")));
    put(&mut ev, "edges", Json::Nat(res.edges as u64));
    put(&mut ev, "events_url", Json::Text(served_at("graphs", external_run_id, "events.json")));
    put(&mut ev, "expected_success", Json::Bool(true));
    put(&mut ev, "index_html_url", Json::Text(served_at("graphs", external_run_id, "index.html")));
    put(&mut ev, "meta2_triggered", Json::Bool(b.m > 0));
    put(&mut ev, "nodes", Json::Nat(res.nodes as u64));
    put(&mut ev, "stdout", Json::Text(wrote_line_of("graphs.thread", dir, res.nodes)));
    put(&mut ev, "thread", Json::text(res.thread.as_str()));
    put(&mut ev, "user_id", Json::text(user_id));
    assert(entries_view(ev@) =~= thread_graph_evidence(
        res,
        external_run_id@,
        user_id@,
        bits.m > 0,
    )->Object_0);
    finish_plainly(control, b, goal_id, run_id_from(fresh_id), deliverables, Json::Object(ev))
}

/// Ends a receipts or API graph run: low uncertainty, no error, high trust.
pub fn finish_graph(
    control: &KernelLoop,
    bits: ExtendedBits,
    goal_id: String,
    label: &str,
    external_run_id: &str,
    out_dir: &str,
    nodes: usize,
    edges: usize,
    fresh_id: &str,
) -> (r: Result<Finished, String>)
    ensures
        plainly_finished(
            settled(bits, 200_000, 0, 950_000),
            goal_id@,
            run_id_of(fresh_id@),
            files_in(out_dir@, graph_files()),
            graph_evidence(label@, external_run_id@, out_dir@, nodes, edges, bits.m > 0),
            r,
        ),
{
    let mut b = bits;
    b.u = 200_000;
    b.e = 0;
    b.t = 950_000;
    let deliverables = graph_deliverables(out_dir);
    let mut ev: Vec<(String, Json)> = Vec::new();
    put(&mut ev, "actual_success", Json::Bool(true));
    put(&mut ev, "dot_url", Json::Text(served_at("graphs", external_run_id, "graph.dot")));
    put(&mut ev, "edges", Json::Nat(edges as u64));
    put(&mut ev, "events_url", Json::Text(served_at("graphs", external_run_id, "events.json")));
    put(&mut ev, "expected_success", Json::Bool(true));
    put(&mut ev, "index_html_url", Json::Text(served_at("graphs", external_run_id, "index.html")));
    put(&mut ev, "meta2_triggered", Json::Bool(b.m > 0));
    put(&mut ev, "nodes", Json::Nat(nodes as u64));
    put(&mut ev, "stdout", Json::Text(wrote_line_of(label, out_dir, nodes)));
    assert(entries_view(ev@) =~= graph_evidence(
        label@,
        external_run_id@,
        out_dir@,
        nodes,
        edges,
        bits.m > 0,
    )->Object_0);
    finish_plainly(control, b, goal_id, run_id_from(fresh_id), deliverables, Json::Object(ev))
}

/// The evidence of a thread report.
pub open spec fn thread_report_evidence(
    res: ThreadReportResult,
    run_id: Seq<char>,
    user_id: Seq<char>,
    triggered: bool,
) -> JsonView {
    JsonView::Object(
        seq![
            ("actual_success"@, JsonView::Bool(true)),
            ("expected_success"@, JsonView::Bool(true)),
            ("index_html_url"@, JsonView::Text(served("threads"@, run_id, "index.html"@))),
            ("meta2_triggered"@, JsonView::Bool(triggered)),
            ("nodes"@, JsonView::Int(res.nodes as int)),
            ("report_json_url"@, JsonView::Text(served("threads"@, run_id, "report.json"@))),
            ("stdout"@, JsonView::Text(wrote_line("threads.report"@, res.out_dir@, res.nodes))),
            ("thread"@, JsonView::Text(res.thread@)),
            ("threads_dir"@, JsonView::Text(res.out_dir@)),
            ("user_id"@, JsonView::Text(user_id)),
        ],
    )
}

/// The files that a thread report delivers.
pub open spec fn report_files() -> Seq<Seq<char>> {
    seq!["index.html"@, "report.json"@]
}

/// Ends a thread report run: low uncertainty, no error, high trust.
pub fn finish_thread_report(
    control: &KernelLoop,
    bits: ExtendedBits,
    goal_id: String,
    external_run_id: &str,
    user_id: &str,
    res: ThreadReportResult,
    fresh_id: &str,
) -> (r: Result<Finished, String>)
    ensures
        plainly_finished(
            settled(bits, 200_000, 0, 950_000),
            goal_id@,
            run_id_of(fresh_id@),
            files_in(res.out_dir@, report_files()),
            thread_report_evidence(res, external_run_id@, user_id@, bits.m > 0),
            r,
        ),
{
    let mut b = bits;
    b.u = 200_000;
    b.e = 0;
    b.t = 950_000;
    let dir = res.out_dir.as_str();
    let mut deliverables: Vec<String> = Vec::new();
    deliverables.push(join_path(dir, "index.html"));
    deliverables.push(join_path(dir, "report.json"));
    assert(views(deliverables@) =~= files_in(res.out_dir@, report_files()));
    let mut ev: Vec<(String, Json)> = Vec::new();
    put(&mut ev, "actual_success", Json::Bool(true));
    put(&mut ev, "expected_success", Json::Bool(true));
    put(&mut ev, "index_html_url", Json::Text(served_at("threads", external_run_id, "index.html")));
    put(&mut ev, "meta2_triggered", Json::Bool(b.m > 0));
    put(&mut ev, "nodes", Json::Nat(res.nodes as u64));
    put(&mut ev, "report_json_url", Json::Text(served_at("threads", external_run_id, "report.json")));
    put(&mut ev, "stdout", Json::Text(wrote_line_of("threads.report", dir, res.nodes)));
    put(&mut ev, "thread", Json::text(res.thread.as_str()));
    put(&mut ev, "threads_dir", Json::text(dir));
    put(&mut ev, "user_id", Json::text(user_id));
    assert(entries_view(ev@) =~= thread_report_evidence(
        res,
        external_run_id@,
        user_id@,
        bits.m > 0,
    )->Object_0);
    finish_plainly(control, b, goal_id, run_id_from(fresh_id), deliverables, Json::Object(ev))
}

/// The evidence of a shell command.
pub open spec fn shell_evidence(cmd: Seq<char>, res: ExecResult, triggered: bool) -> JsonView {
    JsonView::Object(
        seq![
            ("cmd"@, JsonView::Text(cmd)),
            ("exit_ok"@, JsonView::Bool(res.ok)),
            ("meta2_triggered"@, JsonView::Bool(triggered)),
            ("stderr"@, JsonView::Text(res.stderr@)),
            ("stdout"@, JsonView::Text(res.stdout@)),
        ],
    )
}

/// The bits of a shell command: low uncertainty; no error and high trust
/// where it succeeded, error and low trust where it did not.
pub open spec fn shell_bits(bits: ExtendedBits, ok: bool) -> ExtendedBits {
    settled(
        bits,
        200_000,
        if ok {
            0
        } else {
            1_000_000
        },
        if ok {
            950_000
        } else {
            400_000
        },
    )
}

/// Ends a shell run.
pub fn finish_shell(
    control: &KernelLoop,
    bits: ExtendedBits,
    goal_id: String,
    cmd: &str,
    res: ExecResult,
    fresh_id: &str,
) -> (r: Result<Finished, String>)
    ensures
        plainly_finished(
            shell_bits(bits, res.ok),
            goal_id@,
            run_id_of(fresh_id@),
            Seq::<Seq<char>>::empty(),
            shell_evidence(cmd@, res, bits.m > 0),
            r,
        ),
{
    let mut b = bits;
    b.u = 200_000;
    b.e = if res.ok {
        0
    } else {
        1_000_000
    };
    b.t = if res.ok {
        950_000
    } else {
        400_000
    };
    let mut ev: Vec<(String, Json)> = Vec::new();
    put(&mut ev, "cmd", Json::text(cmd));
    put(&mut ev, "exit_ok", Json::Bool(res.ok));
    put(&mut ev, "meta2_triggered", Json::Bool(b.m > 0));
    put(&mut ev, "stderr", Json::Text(res.stderr));
    put(&mut ev, "stdout", Json::Text(res.stdout));
    assert(entries_view(ev@) =~= shell_evidence(cmd@, res, bits.m > 0)->Object_0);
    let deliverables: Vec<String> = Vec::new();
    assert(views(deliverables@) =~= Seq::<Seq<char>>::empty());
    finish_plainly(control, b, goal_id, run_id_from(fresh_id), deliverables, Json::Object(ev))
}

/// The evidence of a written file.
pub open spec fn write_evidence(path: Seq<char>, content: Seq<char>, triggered: bool) -> JsonView {
    JsonView::Object(
        seq![
            ("actual_success"@, JsonView::Bool(true)),
            ("bytes"@, JsonView::Int(byte_len(content) as int)),
            ("meta2_triggered"@, JsonView::Bool(triggered)),
            ("path"@, JsonView::Text(path)),
        ],
    )
}

/// Ends a write run once the file is written: lowest uncertainty, no error,
/// full trust.
pub fn finish_write(
    control: &KernelLoop,
    bits: ExtendedBits,
    goal_id: String,
    path: &str,
    content: &str,
    fresh_id: &str,
) -> (r: Result<Finished, String>)
    ensures
        plainly_finished(
            settled(bits, 100_000, 0, 1_000_000),
            goal_id@,
            run_id_of(fresh_id@),
            seq![path@],
            write_evidence(path@, content@, bits.m > 0),
            r,
        ),
{
    let mut b = bits;
    b.u = 100_000;
    b.e = 0;
    b.t = 1_000_000;
    let mut ev: Vec<(String, Json)> = Vec::new();
    put(&mut ev, "actual_success", Json::Bool(true));
    put(&mut ev, "bytes", Json::Nat(content.len() as u64));
    put(&mut ev, "meta2_triggered", Json::Bool(b.m > 0));
    put(&mut ev, "path", Json::text(path));
    assert(entries_view(ev@) =~= write_evidence(path@, content@, bits.m > 0)->Object_0);
    let mut deliverables: Vec<String> = Vec::new();
    deliverables.push(path.to_owned());
    assert(views(deliverables@) =~= seq![path@]);
    finish_plainly(control, b, goal_id, run_id_from(fresh_id), deliverables, Json::Object(ev))
}

/// The evidence of an alignment run.
pub open spec fn align_evidence(stdout: Seq<char>) -> JsonView {
    JsonView::Object(
        seq![
            ("alignment_boost"@, JsonView::Real(100_000)),
            ("meta2_triggered"@, JsonView::Bool(false)),
            ("stdout"@, JsonView::Text(stdout)),
        ],
    )
}

/// The trust after an alignment run: one tenth higher, and at most one and a
/// half.
pub open spec fn boosted(t: i64) -> i64 {
    if t >= 1_400_000 {
        1_500_000
    } else {
        (t + 100_000) as i64
    }
}

/// `r` is how an alignment run ends: with the boosted trust, in its result
/// and in its manifest alike. It fails where the bits with the boosted
/// trust are not complete.
pub open spec fn align_finished(
    bits: ExtendedBits,
    goal: Seq<char>,
    stdout: Seq<char>,
    fresh: Seq<char>,
    r: Result<Finished, String>,
) -> bool {
    plainly_finished(
        ExtendedBits { t: boosted(bits.t), ..bits },
        goal,
        run_id_of(fresh),
        Seq::<Seq<char>>::empty(),
        align_evidence(stdout),
        r,
    )
}

/// Ends an alignment run once its message was echoed.
pub fn finish_align(
    control: &KernelLoop,
    bits: ExtendedBits,
    goal_id: String,
    res: ExecResult,
    fresh_id: &str,
) -> (r: Result<Finished, String>)
    ensures
        align_finished(bits, goal_id@, res.stdout@, fresh_id@, r),
{
    let mut ev: Vec<(String, Json)> = Vec::new();
    put(&mut ev, "alignment_boost", Json::Real(100_000));
    put(&mut ev, "meta2_triggered", Json::Bool(false));
    put(&mut ev, "stdout", Json::Text(res.stdout));
    assert(entries_view(ev@) =~= align_evidence(res.stdout@)->Object_0);
    let deliverables: Vec<String> = Vec::new();
    assert(views(deliverables@) =~= Seq::<Seq<char>>::empty());
    let mut after = bits;
    after.t = if bits.t >= 1_400_000 {
        1_500_000
    } else {
        bits.t + 100_000
    };
    finish_plainly(control, after, goal_id, run_id_from(fresh_id), deliverables, Json::Object(ev))
}

/// Why a file that was read counts as stale, where it does: the input
/// carries what was expected of it, and its modification time, or its
/// digest, is another.
pub open spec fn stale_reason(inputs: JsonView, sha: Seq<char>, mtime: i64) -> Option<Seq<char>> {
    match inputs.get("context_manifest"@) {
        None => None,
        Some(expected) => if expected.i64_at("mtime"@) is Some && expected.i64_at("mtime"@)
            != Some(mtime) {
            Some("mtime_mismatch"@)
        } else if expected.text_at("sha256"@) is Some && expected.text_at("sha256"@) != Some(sha) {
            Some("sha256_mismatch"@)
        } else {
            None
        },
    }
}

/// Why a file that was read counts as stale, where it does.
pub fn stale_reason_of(inputs: &Json, sha: &str, mtime: i64) -> (r: Option<&'static str>)
    ensures
        match r {
            Some(reason) => stale_reason(inputs@, sha@, mtime) == Some(reason@),
            None => stale_reason(inputs@, sha@, mtime) is None,
        },
{
    match inputs.get("context_manifest") {
        None => None,
        Some(expected) => {
            let mtime_differs = match expected.i64_at("mtime") {
                Some(m) => m != mtime,
                None => false,
            };
            let sha_differs = match expected.str_at("sha256") {
                Some(s) => !str_eq(s, sha),
                None => false,
            };
            if mtime_differs {
                Some("mtime_mismatch")
            } else if sha_differs {
                Some("sha256_mismatch")
            } else {
                None
            }
        },
    }
}

/// The summary line of a file that was read.
pub open spec fn read_summary(content: Seq<char>) -> Seq<char> {
    "lines="@ + decimal(line_count(content)) + " bytes="@ + decimal(byte_len(content) as nat)
        + " first_line="@ + first_line(content)
}

/// The evidence of a file that was read.
pub open spec fn read_evidence(
    inputs: JsonView,
    path: Seq<char>,
    content: Seq<char>,
    mtime: i64,
) -> JsonView {
    let sha = sha256_hex(encode_utf8(content));
    let reason = stale_reason(inputs, sha, mtime);
    JsonView::Object(
        seq![
            ("actual_success"@, JsonView::Bool(reason is None)),
            ("bytes"@, JsonView::Int(byte_len(content) as int)),
            ("expected_success"@, JsonView::Bool(true)),
            ("lines"@, JsonView::Int(line_count(content) as int)),
            ("meta2_triggered"@, JsonView::Bool(false)),
            ("mtime"@, JsonView::Int(mtime as int)),
            ("path"@, JsonView::Text(path)),
            ("sha256"@, JsonView::Text(sha)),
            ("snippet"@, JsonView::Text(prefix(content, 2000))),
            ("stale"@, JsonView::Bool(reason is Some)),
            (
                "stale_reason"@,
                match reason {
                    Some(why) => JsonView::Text(why),
                    None => JsonView::Null,
                },
            ),
            ("summary"@, JsonView::Text(read_summary(content))),
        ],
    )
}

/// The bits of a read: low uncertainty, no error; high trust for a fresh
/// file, low trust for a stale one.
pub open spec fn read_bits(bits: ExtendedBits, stale: bool) -> ExtendedBits {
    settled(
        bits,
        200_000,
        0,
        if stale {
            400_000
        } else {
            950_000
        },
    )
}

/// Ends a read run once the file was read: `content` is its text and `mtime`
/// its modification time in seconds since the Unix epoch.
pub fn finish_read(
    control: &KernelLoop,
    bits: ExtendedBits,
    goal_id: String,
    inputs: &Json,
    path: &str,
    content: &str,
    mtime: i64,
    fresh_id: &str,
) -> (r: Result<Finished, String>)
    ensures
        plainly_finished(
            read_bits(
                bits,
                stale_reason(inputs@, sha256_hex(encode_utf8(content@)), mtime) is Some,
            ),
            goal_id@,
            run_id_of(fresh_id@),
            Seq::<Seq<char>>::empty(),
            read_evidence(inputs@, path@, content@, mtime),
            r,
        ),
{
    let text = chars_of(content);
    let lines = lines_in(&text);
    let bytes = content.len();
    let snippet = text_of(&prefix_of(&text, 2000));
    let mut summary: Vec<char> = Vec::new();
    push_str(&mut summary, "lines=");
    push_decimal(&mut summary, lines as u64);
    push_str(&mut summary, " bytes=");
    push_decimal(&mut summary, bytes as u64);
    push_str(&mut summary, " first_line=");
    let head = first_line_of(&text);
    push_all(&mut summary, &head);
    let sha = sha256_hex_of(content.as_bytes());
    let reason = stale_reason_of(inputs, sha.as_str(), mtime);
    let stale = reason.is_some();
    let mut b = bits;
    b.u = 200_000;
    b.e = 0;
    b.t = if stale {
        400_000
    } else {
        950_000
    };
    let mut ev: Vec<(String, Json)> = Vec::new();
    put(&mut ev, "actual_success", Json::Bool(!stale));
    put(&mut ev, "bytes", Json::Nat(bytes as u64));
    put(&mut ev, "expected_success", Json::Bool(true));
    put(&mut ev, "lines", Json::Nat(lines as u64));
    put(&mut ev, "meta2_triggered", Json::Bool(false));
    put(&mut ev, "mtime", Json::Int(mtime));
    put(&mut ev, "path", Json::text(path));
    put(&mut ev, "sha256", Json::Text(sha));
    put(&mut ev, "snippet", Json::Text(snippet));
    put(&mut ev, "stale", Json::Bool(stale));
    put(
        &mut ev,
        "stale_reason",
        match reason {
            Some(why) => Json::text(why),
            None => Json::Null,
        },
    );
    put(&mut ev, "summary", Json::Text(text_of(&summary)));
    assert(entries_view(ev@) =~= read_evidence(inputs@, path@, content@, mtime)->Object_0);
    let deliverables: Vec<String> = Vec::new();
    assert(views(deliverables@) =~= Seq::<Seq<char>>::empty());
    finish_plainly(control, b, goal_id, run_id_from(fresh_id), deliverables, Json::Object(ev))
}

/// The error of a read whose file could not be read.
pub open spec fn read_failure(path: Seq<char>, cause: Seq<char>) -> Seq<char> {
    "read failed for "@ + path + ": "@ + cause
}

/// The files that a multiway slice delivers.
pub open spec fn ruliad_files() -> Seq<Seq<char>> {
    seq!["states.jsonl"@, "edges.jsonl"@, "multiway.dot"@, "causal.dot"@, "index.html"@]
}

/// The evidence of a multiway slice.
pub open spec fn ruliad_evidence(
    rules: JsonView,
    seed: Seq<char>,
    depth: usize,
    states: usize,
    edges: usize,
) -> JsonView {
    JsonView::Object(
        seq![
            ("actual_success"@, JsonView::Bool(true)),
            ("depth"@, JsonView::Int(depth as int)),
            ("edges"@, JsonView::Int(edges as int)),
            ("expected_success"@, JsonView::Bool(true)),
            ("meta2_triggered"@, JsonView::Bool(false)),
            ("rule"@, rules),
            ("seed"@, JsonView::Text(seed)),
            ("states"@, JsonView::Int(states as int)),
        ],
    )
}

/// Ends a multiway run: lowest uncertainty, no error, high trust.
pub fn finish_ruliad(
    control: &KernelLoop,
    bits: ExtendedBits,
    goal_id: String,
    run_id: String,
    out_dir: &str,
    seed: &str,
    depth: usize,
    rules: Json,
    states: usize,
    edges: usize,
) -> (r: Result<Finished, String>)
    ensures
        plainly_finished(
            settled(bits, 100_000, 0, 950_000),
            goal_id@,
            run_id@,
            files_in(out_dir@, ruliad_files()),
            ruliad_evidence(rules@, seed@, depth, states, edges),
            r,
        ),
{
    let mut b = bits;
    b.u = 100_000;
    b.e = 0;
    b.t = 950_000;
    let mut deliverables: Vec<String> = Vec::new();
    deliverables.push(join_path(out_dir, "states.jsonl"));
    deliverables.push(join_path(out_dir, "edges.jsonl"));
    deliverables.push(join_path(out_dir, "multiway.dot"));
    deliverables.push(join_path(out_dir, "causal.dot"));
    deliverables.push(join_path(out_dir, "index.html"));
    assert(views(deliverables@) =~= files_in(out_dir@, ruliad_files()));
    let mut ev: Vec<(String, Json)> = Vec::new();
    put(&mut ev, "actual_success", Json::Bool(true));
    put(&mut ev, "depth", Json::Nat(depth as u64));
    put(&mut ev, "edges", Json::Nat(edges as u64));
    put(&mut ev, "expected_success", Json::Bool(true));
    put(&mut ev, "meta2_triggered", Json::Bool(false));
    put(&mut ev, "rule", rules);
    put(&mut ev, "seed", Json::text(seed));
    put(&mut ev, "states", Json::Nat(states as u64));
    assert(entries_view(ev@) =~= ruliad_evidence(rules@, seed@, depth, states, edges)->Object_0);
    finish_plainly(control, b, goal_id, run_id, deliverables, Json::Object(ev))
}

} // verus!
