//! The small answers of the interface: the version, the artifacts of a
//! rewriting run, the scripting requests, and what stands in for what is
//! not there.

use vstd::prelude::*;
use crate::ambient::clock_now;
use crate::engine::golden::GoldenSummary;
use crate::json::{entries_view, items_view, put, Json, JsonView};
use crate::text::{chars_of, concat, concat3, ends_with, finishes_with, opt_view};
use super::requests::{ExecuteReq, GoldenResp, MineReq, TauReq, VersionInfo};
use super::users::{refuses, Refused};
use super::{
    is_safe_segment, opt_text_json, opt_text_view, safe_segment, texts_json, texts_view, RunResp,
};

verus! {

/// A text that is known when the engine is built, where it is known.
pub open spec fn built_in(o: Option<&'static str>) -> Option<Seq<char>> {
    match o {
        Some(s) => Some(s@),
        None => None,
    }
}

impl VersionInfo {
    /// Which engine answers at the time `ts`.
    pub fn at(
        engine: &'static str,
        build_token: Option<&'static str>,
        git_ref: Option<&'static str>,
        ts: &str,
    ) -> (v: VersionInfo)
        ensures
            v.engine == engine,
            v.build_token == build_token,
            v.git_ref == git_ref,
            v.ts@ == ts@,
    {
        VersionInfo { engine, build_token, git_ref, ts: ts.to_owned() }
    }

    /// Which engine answers now.
    pub fn current(
        engine: &'static str,
        build_token: Option<&'static str>,
        git_ref: Option<&'static str>,
    ) -> (v: VersionInfo)
        ensures
            v.engine == engine,
            v.build_token == build_token,
            v.git_ref == git_ref,
    {
        let now = clock_now();
        VersionInfo::at(engine, build_token, git_ref, now.stamp.as_str())
    }
}

/// The version as a structured value.
pub open spec fn version_view(v: VersionInfo) -> JsonView {
    JsonView::Object(
        seq![
            ("engine"@, JsonView::Text(v.engine@)),
            ("build_token"@, opt_text_view(built_in(v.build_token))),
            ("git_ref"@, opt_text_view(built_in(v.git_ref))),
            ("ts"@, JsonView::Text(v.ts@)),
        ],
    )
}

/// A text that is known when the engine is built, as a structured value.
fn built_in_json(o: Option<&'static str>) -> (r: Json)
    ensures
        r@ == opt_text_view(built_in(o)),
{
    match o {
        Some(s) => Json::text(s),
        None => Json::Null,
    }
}

/// The version as a structured value.
pub fn version_json(v: &VersionInfo) -> (r: Json)
    ensures
        r@ == version_view(*v),
{
    let mut e: Vec<(String, Json)> = Vec::new();
    put(&mut e, "engine", Json::text(v.engine));
    put(&mut e, "build_token", built_in_json(v.build_token));
    put(&mut e, "git_ref", built_in_json(v.git_ref));
    put(&mut e, "ts", Json::text(v.ts.as_str()));
    assert(entries_view(e@) =~= version_view(*v)->Object_0);
    Json::Object(e)
}

/// What stands in for the metrics: that the engine is up, and for how
/// long, and which engine it is.
pub open spec fn metrics_view(uptime_s: u64, build: VersionInfo) -> JsonView {
    JsonView::Object(
        seq![
            ("status"@, JsonView::Text("ok"@)),
            ("uptime_s"@, JsonView::Int(uptime_s as int)),
            ("note"@, JsonView::Text("metrics stub (DSL compatibility)"@)),
            ("build"@, version_view(build)),
        ],
    )
}

/// What stands in for the metrics.
pub fn metrics_json(uptime_s: u64, build: &VersionInfo) -> (r: Json)
    ensures
        r@ == metrics_view(uptime_s, *build),
{
    let mut e: Vec<(String, Json)> = Vec::new();
    put(&mut e, "status", Json::text("ok"));
    put(&mut e, "uptime_s", Json::Nat(uptime_s));
    put(&mut e, "note", Json::text("metrics stub (DSL compatibility)"));
    put(&mut e, "build", version_json(build));
    assert(entries_view(e@) =~= metrics_view(uptime_s, *build)->Object_0);
    Json::Object(e)
}

/// An object with one field.
pub open spec fn one_field(key: Seq<char>, value: JsonView) -> JsonView {
    JsonView::Object(seq![(key, value)])
}

/// An object with one field.
fn one_field_json(key: &str, value: Json) -> (r: Json)
    ensures
        r@ == one_field(key@, value@),
{
    let mut e: Vec<(String, Json)> = Vec::new();
    put(&mut e, key, value);
    assert(entries_view(e@) =~= seq![(key@, value@)]);
    Json::Object(e)
}

/// The kernel file as it is shown: what it holds, an empty object where
/// it cannot be read as a structured value, and `not_found` where there is
/// no such file. `kernel` is none for no file, and holds none for a file
/// that cannot be read as a structured value.
pub open spec fn seed_view(kernel: Option<Option<JsonView>>) -> JsonView {
    one_field(
        "kernel"@,
        match kernel {
            Some(Some(v)) => v,
            Some(None) => JsonView::Object(Seq::empty()),
            None => JsonView::Text("not_found"@),
        },
    )
}

/// The kernel file as it is shown.
pub fn seed_json(kernel: Option<Option<Json>>) -> (r: Json)
    ensures
        r@ == seed_view(
            match kernel {
                Some(Some(v)) => Some(Some(v@)),
                Some(None) => Some(None),
                None => None,
            },
        ),
{
    let shown = match kernel {
        Some(Some(v)) => v,
        Some(None) => {
            let none: Vec<(String, Json)> = Vec::new();
            assert(entries_view(none@) =~= Seq::<(Seq<char>, JsonView)>::empty());
            Json::Object(none)
        },
        None => Json::text("not_found"),
    };
    one_field_json("kernel", shown)
}

/// The script of the engine as it is shown: its text, or `not_found`.
pub fn config_json(dsl: Option<&str>) -> (r: Json)
    ensures
        r@ == one_field(
            "engine_dsl"@,
            JsonView::Text(
                match dsl {
                    Some(s) => s@,
                    None => "not_found"@,
                },
            ),
        ),
{
    let text = match dsl {
        Some(s) => s,
        None => "not_found",
    };
    one_field_json("engine_dsl", Json::text(text))
}

/// The patterns that the engine knows: none.
pub fn patterns_json() -> (r: Json)
    ensures
        r@ == one_field("patterns"@, JsonView::List(Seq::empty())),
{
    let none: Vec<Json> = Vec::new();
    assert(items_view(none@) =~= Seq::<JsonView>::empty());
    one_field_json("patterns", Json::List(none))
}

/// What a request for one pattern is refused with: there is none.
pub fn pattern_detail() -> (r: Refused)
    ensures
        refuses(r, 404, "pattern not found"@),
{
    Refused { status: 404, message: "pattern not found".to_owned() }
}

/// What a request to mine is answered with: mining is not there, and the
/// request is given back.
pub open spec fn mine_view(req: MineReq) -> JsonView {
    JsonView::Object(
        seq![
            ("status"@, JsonView::Text("not_implemented"@)),
            ("sources"@, texts_view(req.sources@)),
            ("patterns"@, texts_view(req.patterns@)),
            ("output_format"@, opt_text_view(opt_view(req.output_format))),
            (
                "hint"@,
                JsonView::Text(
                    "mining pipeline not wired; stub provided for DSL compatibility"@,
                ),
            ),
        ],
    )
}

/// What a request to mine is answered with.
pub fn mine_json(req: &MineReq) -> (r: Json)
    ensures
        r@ == mine_view(*req),
{
    let mut e: Vec<(String, Json)> = Vec::new();
    put(&mut e, "status", Json::text("not_implemented"));
    put(&mut e, "sources", texts_json(&req.sources));
    put(&mut e, "patterns", texts_json(&req.patterns));
    put(&mut e, "output_format", opt_text_json(&req.output_format));
    put(
        &mut e,
        "hint",
        Json::text("mining pipeline not wired; stub provided for DSL compatibility"),
    );
    assert(entries_view(e@) =~= mine_view(*req)->Object_0);
    Json::Object(e)
}

/// A value, where there is one, as a structured value: the value, or null.
pub open spec fn opt_json_view(o: Option<Json>) -> JsonView {
    match o {
        Some(v) => v@,
        None => JsonView::Null,
    }
}

/// A copy of a value, where there is one, or null.
fn opt_json(o: &Option<Json>) -> (r: Json)
    ensures
        r@ == opt_json_view(*o),
{
    match o {
        Some(v) => v.copy(),
        None => Json::Null,
    }
}

/// The goal of a scripting request: its preset, else the default.
pub fn tau_goal(req: &TauReq) -> (r: String)
    ensures
        r@ == match req.preset {
            Some(p) => p@,
            None => "tau.default"@,
        },
{
    match &req.preset {
        Some(p) => p.clone(),
        None => "tau.default".to_owned(),
    }
}

/// The input of the run of a scripting request.
pub open spec fn tau_input(req: TauReq) -> JsonView {
    JsonView::Object(
        seq![
            ("input"@, opt_text_view(opt_view(req.input))),
            ("context"@, opt_json_view(req.context)),
            ("options"@, opt_json_view(req.options)),
        ],
    )
}

/// The input of the run of a scripting request.
pub fn tau_inputs(req: &TauReq) -> (r: Json)
    ensures
        r@ == tau_input(*req),
{
    let mut e: Vec<(String, Json)> = Vec::new();
    put(&mut e, "input", opt_text_json(&req.input));
    put(&mut e, "context", opt_json(&req.context));
    put(&mut e, "options", opt_json(&req.options));
    assert(entries_view(e@) =~= tau_input(*req)->Object_0);
    Json::Object(e)
}

/// The input of the run of a request to execute.
pub open spec fn execute_input(req: ExecuteReq) -> JsonView {
    JsonView::Object(
        seq![
            ("task_type"@, opt_text_view(opt_view(req.task_type))),
            ("parameters"@, req.parameters@),
        ],
    )
}

/// The input of the run of a request to execute.
pub fn execute_inputs(req: &ExecuteReq) -> (r: Json)
    ensures
        r@ == execute_input(*req),
{
    let mut e: Vec<(String, Json)> = Vec::new();
    put(&mut e, "task_type", opt_text_json(&req.task_type));
    put(&mut e, "parameters", req.parameters.copy());
    assert(entries_view(e@) =~= execute_input(*req)->Object_0);
    Json::Object(e)
}

/// What a scripting request of the kind `kind` is refused with where its
/// run fails for the reason `error`.
pub fn dsl_refusal(kind: &str, error: &str) -> (r: Refused)
    ensures
        refuses(r, 400, kind@ + " error: "@ + error@),
{
    Refused { status: 400, message: concat3(kind, " error: ", error) }
}

/// The response to a run under the identifier `run_id`: the manifest
/// carries that identifier.
pub fn with_run_id(run_id: &str, resp: RunResp) -> (r: RunResp)
    ensures
        r.manifest.run_id@ == run_id@,
        r.manifest.goal_id == resp.manifest.goal_id,
        r.manifest.deliverables == resp.manifest.deliverables,
        r.manifest.evidence == resp.manifest.evidence,
        r.manifest.bits == resp.manifest.bits,
        r.bits == resp.bits,
        r.pr_created == resp.pr_created,
        r.meta2_proposal == resp.meta2_proposal,
{
    super::finished_run(run_id, resp.manifest, resp.bits, resp.pr_created, resp.meta2_proposal)
}

/// The directory of the artifacts of a rewriting run.
pub open spec fn artifact_dir(run_id: Seq<char>) -> Seq<char> {
    "runs/ruliad_kernel/"@ + run_id
}

/// The directory of the artifacts of a rewriting run; refused where the
/// run is named by no safe segment.
pub fn ruliad_dir(run_id: &str) -> (r: Result<String, Refused>)
    ensures
        match r {
            Ok(dir) => safe_segment(run_id@) && dir@ == artifact_dir(run_id@),
            Err(e) => !safe_segment(run_id@) && refuses(e, 400, "invalid run_id"@),
        },
{
    if !is_safe_segment(run_id) {
        return Err(Refused { status: 400, message: "invalid run_id".to_owned() });
    }
    Ok(concat("runs/ruliad_kernel/", run_id))
}

/// What a request for the artifacts of an unknown run is refused with.
pub fn run_not_found(run_id: &str) -> (r: Refused)
    ensures
        refuses(r, 404, "run "@ + run_id@ + " not found"@),
{
    Refused { status: 404, message: concat3("run ", run_id, " not found") }
}

/// The artifacts of a rewriting run as a structured value: the run, its
/// directory, and each file with its length.
pub open spec fn listing_of(run_id: Seq<char>, files: Seq<(String, u64)>) -> JsonView {
    JsonView::Object(
        seq![
            ("run_id"@, JsonView::Text(run_id)),
            ("dir"@, JsonView::Text(artifact_dir(run_id))),
            (
                "files"@,
                JsonView::List(
                    Seq::new(
                        files.len(),
                        |i: int|
                            JsonView::Object(
                                seq![
                                    ("name"@, JsonView::Text(files[i].0@)),
                                    ("len"@, JsonView::Int(files[i].1 as int)),
                                ],
                            ),
                    ),
                ),
            ),
        ],
    )
}

/// The artifacts of a rewriting run as a structured value.
pub fn ruliad_listing(run_id: &str, files: &Vec<(String, u64)>) -> (r: Json)
    ensures
        r@ == listing_of(run_id@, files@),
{
    let mut list: Vec<Json> = Vec::new();
    let mut i: usize = 0;
    while i < files.len()
        invariant
            i <= files.len(),
            list@.len() == i,
            forall|j: int|
                0 <= j < i ==> (#[trigger] list@[j])@ == JsonView::Object(
                    seq![
                        ("name"@, JsonView::Text(files@[j].0@)),
                        ("len"@, JsonView::Int(files@[j].1 as int)),
                    ],
                ),
        decreases files.len() - i,
    {
        let mut e: Vec<(String, Json)> = Vec::new();
        put(&mut e, "name", Json::text(files[i].0.as_str()));
        put(&mut e, "len", Json::Nat(files[i].1));
        assert(entries_view(e@) =~= seq![
            ("name"@, JsonView::Text(files@[i as int].0@)),
            ("len"@, JsonView::Int(files@[i as int].1 as int)),
        ]);
        list.push(Json::Object(e));
        i += 1;
    }
    assert(items_view(list@) =~= listing_of(run_id@, files@)->Object_0[2].1->List_0);
    let mut e: Vec<(String, Json)> = Vec::new();
    put(&mut e, "run_id", Json::text(run_id));
    put(&mut e, "dir", Json::Text(concat("runs/ruliad_kernel/", run_id)));
    put(&mut e, "files", Json::List(list));
    assert(entries_view(e@) =~= listing_of(run_id@, files@)->Object_0);
    Json::Object(e)
}

/// The file of an artifact of a rewriting run; refused where the run or
/// the file is named by no safe segment.
pub fn ruliad_file(run_id: &str, file: &str) -> (r: Result<String, Refused>)
    ensures
        match r {
            Ok(path) => safe_segment(run_id@) && safe_segment(file@) && path@ == artifact_dir(
                run_id@,
            ) + "/"@ + file@,
            Err(e) => !(safe_segment(run_id@) && safe_segment(file@)) && refuses(
                e,
                400,
                "invalid path"@,
            ),
        },
{
    if !is_safe_segment(run_id) || !is_safe_segment(file) {
        return Err(Refused { status: 400, message: "invalid path".to_owned() });
    }
    let mut path = chars_of("runs/ruliad_kernel/");
    crate::text::push_str(&mut path, run_id);
    crate::text::push_str(&mut path, "/");
    crate::text::push_str(&mut path, file);
    Ok(crate::text::text_of(&path))
}

/// What a request for a missing artifact is refused with.
pub fn file_not_found() -> (r: Refused)
    ensures
        refuses(r, 404, "file not found"@),
{
    Refused { status: 404, message: "file not found".to_owned() }
}

/// The kind of content that a file of this name holds, by its ending.
pub open spec fn content_type_of(file: Seq<char>) -> Seq<char> {
    if ends_with(file, ".dot"@) {
        "text/vnd.graphviz; charset=utf-8"@
    } else if ends_with(file, ".json"@) || ends_with(file, ".jsonl"@) {
        "application/json"@
    } else if ends_with(file, ".html"@) {
        "text/html; charset=utf-8"@
    } else {
        "application/octet-stream"@
    }
}

/// The kind of content that a file of this name holds.
pub fn content_type(file: &str) -> (r: &'static str)
    ensures
        r@ == content_type_of(file@),
{
    let f = chars_of(file);
    if finishes_with(&f, ".dot") {
        "text/vnd.graphviz; charset=utf-8"
    } else if finishes_with(&f, ".json") || finishes_with(&f, ".jsonl") {
        "application/json"
    } else if finishes_with(&f, ".html") {
        "text/html; charset=utf-8"
    } else {
        "application/octet-stream"
    }
}

/// `c` can stand in the name of a golden trace: an ASCII letter or digit,
/// an underscore or a hyphen.
pub open spec fn golden_char(c: char) -> bool {
    ('a' <= c && c <= 'z') || ('A' <= c && c <= 'Z') || ('0' <= c && c <= '9') || c == '_' || c
        == '-'
}

/// Every character of `name` can stand in the name of a golden trace.
pub open spec fn golden_name(name: Seq<char>) -> bool {
    forall|i: int| 0 <= i < name.len() ==> golden_char(#[trigger] name[i])
}

/// The file of a golden trace; refused where its name holds a character
/// that cannot stand there.
pub fn golden_file(name: &str) -> (r: Result<String, Refused>)
    ensures
        match r {
            Ok(path) => golden_name(name@) && path@ == "trace/golden/"@ + name@ + ".json"@,
            Err(e) => !golden_name(name@) && refuses(e, 400, "invalid name"@),
        },
{
    let n = chars_of(name);
    let mut i: usize = 0;
    while i < n.len()
        invariant
            i <= n.len(),
            n@ == name@,
            forall|j: int| 0 <= j < i ==> golden_char(#[trigger] n@[j]),
        decreases n.len() - i,
    {
        let c = n[i];
        if !(('a' <= c && c <= 'z') || ('A' <= c && c <= 'Z') || ('0' <= c && c <= '9') || c
            == '_' || c == '-') {
            return Err(Refused { status: 400, message: "invalid name".to_owned() });
        }
        i += 1;
    }
    Ok(concat3("trace/golden/", name, ".json"))
}

/// What a request for a golden trace is refused with where its file
/// cannot be read (`missing`) or holds no structured value, for the reason
/// `error`.
pub fn golden_refusal(missing: bool, error: &str) -> (r: Refused)
    ensures
        if missing {
            refuses(r, 404, "not found: "@ + error@)
        } else {
            refuses(r, 500, "invalid JSON: "@ + error@)
        },
{
    if missing {
        Refused { status: 404, message: concat("not found: ", error) }
    } else {
        Refused { status: 500, message: concat("invalid JSON: ", error) }
    }
}

/// The answer to a request to validate a golden trace.
pub fn golden_resp(sum: GoldenSummary) -> (r: GoldenResp)
    ensures
        r.name == sum.name,
        r.total == sum.total,
        r.passed == sum.passed,
        r.failed == sum.failed,
        r.details == sum.details,
        r.bits == sum.bits,
{
    GoldenResp {
        name: sum.name,
        total: sum.total,
        passed: sum.passed,
        failed: sum.failed,
        details: sum.details,
        bits: sum.bits,
    }
}

} // verus!
