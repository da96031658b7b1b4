//! One dispatched run, step by step.

use vstd::prelude::*;
use crate::ambient::{
    clock_now, fresh_uuid, hyphenated, sha256_hex, shell_quote, shell_quoted,
};
use crate::json::{count_or, entries_view, flag_or, items_view, put, text_or, Json, JsonView};
use crate::level::{plain, push_plain};
use crate::text::{
    blank, chars_of, concat, concat3, contains_str, contains_text, join_path, joined, opt_view,
    push_str, text_of, views,
};
use super::artifacts::{
    align_finished, finish_align, finish_graph, finish_plainly, finish_read, finish_ruliad,
    finish_shell, finish_thread_graph, finish_thread_report, finish_wiki, finish_write,
    files_in, graph_evidence, graph_files, plainly_finished, read_bits, read_evidence,
    read_failure, report_files, ruliad_evidence, ruliad_files, settled, shell_bits,
    shell_evidence, stale_reason, thread_graph_evidence, thread_report_evidence, wiki_evidence,
    wiki_files, write_evidence,
};
use super::graphs::{
    ApiGraphOpts, ApiGraphResult, ReceiptsGraphResult, ThreadGraphOpts, ThreadGraphResult,
};
use super::multiway::{
    dot_text, multiway, multiway_of, page_text, parse_rules, render_dot, render_page,
    rules_evidence, rules_json, rules_of, state_record, state_records, step_record,
    step_records, Graph,
};
use super::executor::ExecResult;
use super::kernel::{
    ask_act_failure, degraded_twice, invalid_bit, proposes, ExtendedBits, KernelLoop,
    Meta2Proposal,
};
use super::policy::{penalized, trust_from, trust_of, weighted};
use super::types::{surfaced, Bits};
use super::verify::check_minimal;
use super::thread_report::{ThreadReportOpts, ThreadReportResult};
use super::wiki::WikiResult;
use super::types::Manifest;
use super::{
    bounded, build_cmd_from_policies, classify, configured_build, context_stale,
    initial_uncertainty, is_context_stale, kind_of, uncertainty_of, GoalKind, Kernel,
};

verus! {

/// What the caller has read from the process environment and the policies
/// file before a run starts. Each value is absent where it is not set.
pub struct Surroundings {
    /// The directory under which runs keep their files.
    pub meta3_root: Option<String>,
    /// The repository that builds run in.
    pub meta3_path: Option<String>,
    /// The build command of the environment.
    pub build_default_cmd: Option<String>,
    /// The default build command of the policies file.
    pub policy_default_cmd: Option<String>,
    /// Whether the policies file forbids global installs.
    pub policy_forbid_global_installs: Option<bool>,
}

/// What the caller is to do for a run.
#[derive(Debug)]
#[allow(inconsistent_fields)]
pub enum Step {
    /// Run the command through the executor.
    Execute { command: String },
    /// Read the file as text, with its modification time.
    ReadFile { path: String },
    /// Write the content to the file, creating the directories above it.
    WriteFile { path: String, content: String },
    /// Create the log directory, then run the build command through the
    /// executor.
    Build {
        command: String,
        log_dir: String,
        log_path: String,
        repo: String,
        build_cmd: String,
        run_id: String,
    },
    /// Generate a wiki snapshot.
    Wiki { run_id: String },
    /// Draw the graph of a chat thread.
    ThreadGraph { run_id: String, user_id: String, thread: String, opts: ThreadGraphOpts },
    /// Draw the graph of the latest receipts.
    ReceiptsGraph { run_id: String, limit: usize },
    /// Draw the graph of the traced API requests.
    ApiGraph { run_id: String, opts: ApiGraphOpts },
    /// Write the report of a chat thread.
    ThreadReport { run_id: String, opts: ThreadReportOpts },
    /// Write the multiway slice into `out_dir`: the records of its states and
    /// of its steps, one to a line, its two drawings and its page.
    Ruliad {
        out_dir: String,
        states: Vec<Json>,
        edges: Vec<Json>,
        multiway_dot: String,
        causal_dot: String,
        index_html: String,
    },
    /// Hand the input to the conversational persona.
    Converse,
}

/// The result of a finished run.
#[derive(Debug)]
pub struct Finished {
    pub manifest: Manifest,
    pub bits: ExtendedBits,
    pub proposal: Option<Meta2Proposal>,
}

/// A run that has started and waits for the caller to do `step`.
#[derive(Debug)]
pub struct Run {
    pub goal_id: String,
    pub kind: GoalKind,
    pub bits: ExtendedBits,
    pub step: Step,
    /// The result that is ready once `step` is done, where the run has one.
    pub closing: Option<Finished>,
    /// The evidence gate is closed: the uncertainty of the goal has reached
    /// the confidence threshold, and verification is due before its result
    /// is relied on. The run goes on all the same.
    pub needs_verification: bool,
}

/// The bits of a run that has passed the admission gate.
pub open spec fn started_bits(goal: Seq<char>) -> ExtendedBits {
    ExtendedBits {
        a: 1_000_000,
        u: uncertainty_of(goal),
        p: 1_000_000,
        e: 0,
        d: 0,
        i: 0,
        r: 0,
        t: 500_000,
        m: 0,
    }
}

/// The error of a run whose context is stale: the admission gate is closed.
pub open spec fn gate_closed() -> Seq<char> {
    "Ask-Act gate failed: A="@ + plain(1_000_000) + ", P="@ + plain(1_000_000) + ", Δ="@ + plain(
        1_000_000,
    )
}

/// The file that a read goal names: the field `path` where the input has
/// one, else the field `context_path`; it has to be text.
pub open spec fn read_path(inputs: JsonView) -> Option<Seq<char>> {
    match inputs.get("path"@) {
        Some(v) => v.as_text(),
        None => inputs.text_at("context_path"@),
    }
}

/// The command that prints `message`.
pub open spec fn echo_of(message: Seq<char>) -> Seq<char> {
    "echo "@ + shell_quoted(message)
}

/// The command of a command-style goal: one that fails for an `impossible`
/// goal, a delayed echo of the message for a `hard` one, an echo otherwise.
pub open spec fn generic_command(goal: Seq<char>, inputs: JsonView) -> Seq<char> {
    let message = text_or(inputs, "message"@, "hello from one-engine"@);
    if contains_text(goal, "impossible"@) {
        "false"@
    } else if contains_text(goal, "hard"@) {
        "sleep 0.1 && "@ + echo_of(message)
    } else {
        echo_of(message)
    }
}

/// Whether a command-style goal is expected to succeed: all but the
/// `impossible` ones are.
pub open spec fn expected_success(goal: Seq<char>) -> bool {
    !contains_text(goal, "impossible"@)
}

/// The build command used where nothing configures one.
pub open spec fn fallback_build() -> Seq<char> {
    "echo \"[meta3.build] start\"; npx turbo run build --filter '!@meta3/cli' --filter '!@meta3/kernel' --no-cache; status=$?; echo \"[meta3.build] done\"; exit $status"@
}

/// The repository of a build: the one the input names, else the one of the
/// environment, else `meta3-monorepo`.
pub open spec fn build_repo(inputs: JsonView, env: Surroundings) -> Seq<char> {
    match inputs.text_at("repo_path"@) {
        Some(r) => r,
        None => match env.meta3_path {
            Some(r) => r@,
            None => "meta3-monorepo"@,
        },
    }
}

/// The command of a build: the one the input names, else the one of the
/// environment, else the one of the policies file, else the fallback.
pub open spec fn build_command(inputs: JsonView, env: Surroundings) -> Seq<char> {
    match inputs.text_at("build_cmd"@) {
        Some(c) => c,
        None => match env.build_default_cmd {
            Some(c) => c@,
            None => match configured_build(
                opt_view(env.policy_default_cmd),
                env.policy_forbid_global_installs,
            ) {
                Some(c) => c,
                None => fallback_build(),
            },
        },
    }
}

/// The directory under which runs keep their files: the configured one, else
/// the current directory.
pub open spec fn root_dir(env: Surroundings) -> Seq<char> {
    match env.meta3_root {
        Some(r) => r@,
        None => "."@,
    }
}

/// The identifier of a run, made from a fresh unique identifier.
pub open spec fn run_id_of(fresh: Seq<char>) -> Seq<char> {
    "r-"@ + fresh
}

/// The bits of a run whose context is stale: those of a run that starts,
/// with the drift set.
pub open spec fn stale_bits(goal: Seq<char>) -> ExtendedBits {
    ExtendedBits { d: 1_000_000, ..started_bits(goal) }
}

/// Why a run cannot start, where it cannot: its context is stale and its
/// goal is no action, or its context is fresh and its input lacks a field
/// that the behavior of the goal needs.
pub open spec fn start_error(goal: Seq<char>, inputs: JsonView, now: (i64, u32)) -> Option<
    Seq<char>,
> {
    if context_stale(inputs, now) {
        if is_action(goal) {
            None
        } else {
            Some(gate_closed())
        }
    } else {
        match kind_of(goal) {
            GoalKind::ResearchRead => if read_path(inputs) is None {
                Some("path or context_path is required"@)
            } else {
                None
            },
            GoalKind::ShellExec => if inputs.text_at("cmd"@) is None {
                Some("cmd is required"@)
            } else {
                None
            },
            GoalKind::FileWrite => if inputs.text_at("path"@) is None {
                Some("path required"@)
            } else if inputs.text_at("content"@) is None {
                Some("content required"@)
            } else {
                None
            },
            _ => None,
        }
    }
}

/// The multiway graph that the input of a multiway run asks for: from the
/// seed `01` and to the depth eight, where it names no other.
pub open spec fn ruliad_graph(inputs: JsonView) -> Graph {
    multiway_of(
        text_or(inputs, "seed"@, "01"@),
        rules_of(inputs),
        count_or(inputs, "depth"@, 8) as nat,
    )
}

/// The directory of a multiway run.
pub open spec fn ruliad_dir(fresh: Seq<char>) -> Seq<char> {
    joined("runs/ruliad_kernel"@, run_id_of(fresh))
}

/// `f` is the result of a multiway run: lowest uncertainty, no error, high
/// trust; the five files of the slice; and the rules, the seed, the depth
/// and the size of the graph as evidence.
pub open spec fn ruliad_result(goal: Seq<char>, inputs: JsonView, fresh: Seq<char>, f: Finished) -> bool {
    let g = ruliad_graph(inputs);
    plainly_finished(
        settled(started_bits(goal), 100_000, 0, 950_000),
        goal,
        run_id_of(fresh),
        files_in(ruliad_dir(fresh), ruliad_files()),
        ruliad_evidence(
            rules_evidence(rules_of(inputs)),
            text_or(inputs, "seed"@, "01"@),
            count_or(inputs, "depth"@, 8),
            g.states.len() as usize,
            g.steps.len() as usize,
        ),
        Ok(f),
    )
}

/// The first step of a goal is `step`.
pub open spec fn first_step(
    goal: Seq<char>,
    inputs: JsonView,
    env: Surroundings,
    fresh: Seq<char>,
    step: Step,
) -> bool {
    match kind_of(goal) {
        GoalKind::AlignSota => step matches Step::Execute { command } && command@ == echo_of(
            text_or(inputs, "message"@, "align.sota"@),
        ),
        GoalKind::ResearchRead => step matches Step::ReadFile { path } && Some(path@) == read_path(
            inputs,
        ),
        GoalKind::WikiGenerate => step matches Step::Wiki { run_id } && run_id@ == text_or(
            inputs,
            "__run_id"@,
            "wiki-unknown"@,
        ),
        GoalKind::GraphsThread => step matches Step::ThreadGraph { run_id, user_id, thread, opts }
            && {
            &&& run_id@ == text_or(inputs, "__run_id"@, "graph-unknown"@)
            &&& user_id@ == text_or(inputs, "user_id"@, "demo"@)
            &&& thread@ == text_or(inputs, "thread"@, "t-default"@)
            &&& opts.max_events == count_or(inputs, "max_events"@, 80)
            &&& opts.content_chars == count_or(inputs, "content_chars"@, 120)
            &&& opts.label_mode@ == text_or(inputs, "label_mode"@, "nl+goal"@)
            &&& opt_view(opts.filter_text) == inputs.text_at("filter_text"@)
            &&& opt_view(opts.filter_goal) == inputs.text_at("filter_goal"@)
            &&& opts.recursive == flag_or(inputs, "recursive"@, false)
            &&& opts.depth == count_or(inputs, "depth"@, 1)
            &&& opts.max_nodes == count_or(inputs, "max_nodes"@, 200)
            &&& opts.include_bits == flag_or(inputs, "include_bits"@, true)
        },
        GoalKind::GraphsReceipts => step matches Step::ReceiptsGraph { run_id, limit } && run_id@
            == text_or(inputs, "__run_id"@, "graph-unknown"@) && limit == count_or(
            inputs,
            "limit"@,
            200,
        ),
        GoalKind::GraphsApi => step matches Step::ApiGraph { run_id, opts } && {
            &&& run_id@ == text_or(inputs, "__run_id"@, "graph-unknown"@)
            &&& opts.limit == count_or(inputs, "limit"@, 800)
            &&& opts.only_mutations == flag_or(inputs, "only_mutations"@, false)
            &&& opts.collapse == flag_or(inputs, "collapse"@, true)
            &&& opt_view(opts.run_id) == inputs.text_at("run_id"@)
            &&& opt_view(opts.thread) == inputs.text_at("thread"@)
            &&& opt_view(opts.user_id) == inputs.text_at("user_id"@)
        },
        GoalKind::Meta3Build => step matches Step::Build {
            command,
            log_dir,
            log_path,
            repo,
            build_cmd,
            run_id,
        } && {
            &&& repo@ == build_repo(inputs, env)
            &&& build_cmd@ == build_command(inputs, env)
            &&& run_id@ == run_id_of(fresh)
            &&& log_dir@ == joined(root_dir(env), "runs/meta3-build"@)
            &&& log_path@ == joined(log_dir@, run_id@ + ".log"@)
            &&& command@ == "cd "@ + shell_quoted(repo@) + " && "@ + build_cmd@ + " 2>&1"@
        },
        GoalKind::Ruliad => step matches Step::Ruliad {
            out_dir,
            states,
            edges,
            multiway_dot,
            causal_dot,
            index_html,
        } && {
            let g = ruliad_graph(inputs);
            &&& out_dir@ == ruliad_dir(fresh)
            &&& items_view(states@) == Seq::new(g.states.len(), |i: int| state_record(g, i))
            &&& items_view(edges@) == Seq::new(g.steps.len(), |i: int| step_record(g, i))
            &&& multiway_dot@ == dot_text(g, "multiway"@, true)
            &&& causal_dot@ == dot_text(g, "causal"@, false)
            &&& index_html@ == page_text(rules_of(inputs), count_or(inputs, "depth"@, 8))
        },
        GoalKind::ThreadsReport => step matches Step::ThreadReport { run_id, opts } && {
            &&& run_id@ == text_or(inputs, "__run_id"@, "thread-unknown"@)
            &&& opts.user_id@ == text_or(inputs, "user_id"@, "demo"@)
            &&& opts.thread@ == text_or(inputs, "thread"@, "auto"@)
            &&& opts.max_events == count_or(inputs, "max_events"@, 200)
            &&& opts.content_chars == count_or(inputs, "content_chars"@, 220)
        },
        GoalKind::ShellExec => step matches Step::Execute { command } && Some(command@)
            == inputs.text_at("cmd"@),
        GoalKind::FileWrite => step matches Step::WriteFile { path, content } && Some(path@)
            == inputs.text_at("path"@) && Some(content@) == inputs.text_at("content"@),
        GoalKind::MetaOmni => step is Converse,
        GoalKind::Generic => step matches Step::Execute { command } && command@
            == generic_command(goal, inputs),
    }
}

/// The command that prints `message`.
pub fn echo_command(message: &str) -> (r: String)
    ensures
        r@ == echo_of(message@),
{
    let quoted = shell_quote(message);
    let mut out: Vec<char> = Vec::new();
    push_str(&mut out, "echo ");
    push_str(&mut out, quoted.as_str());
    text_of(&out)
}

/// The repository of a build.
pub fn build_repo_of(inputs: &Json, env: &Surroundings) -> (r: String)
    ensures
        r@ == build_repo(inputs@, *env),
{
    match inputs.text_at("repo_path") {
        Some(r) => r,
        None => match &env.meta3_path {
            Some(r) => r.clone(),
            None => "meta3-monorepo".to_owned(),
        },
    }
}

/// The command of a build.
pub fn build_command_of(inputs: &Json, env: &Surroundings) -> (r: String)
    ensures
        r@ == build_command(inputs@, *env),
{
    match inputs.text_at("build_cmd") {
        Some(c) => c,
        None => match &env.build_default_cmd {
            Some(c) => c.clone(),
            None => {
                let configured = match &env.policy_default_cmd {
                    Some(c) => build_cmd_from_policies(
                        Some(c.as_str()),
                        env.policy_forbid_global_installs,
                    ),
                    None => build_cmd_from_policies(None, env.policy_forbid_global_installs),
                };
                match configured {
                    Some(c) => c,
                    None => "echo \"[meta3.build] start\"; npx turbo run build --filter '!@meta3/cli' --filter '!@meta3/kernel' --no-cache; status=$?; echo \"[meta3.build] done\"; exit $status".to_owned(),
                }
            },
        },
    }
}

/// The step of a build goal.
pub fn build_step(inputs: &Json, env: &Surroundings, fresh_id: &str) -> (step: Step)
    ensures
        step matches Step::Build { command, log_dir, log_path, repo, build_cmd, run_id } && {
            &&& repo@ == build_repo(inputs@, *env)
            &&& build_cmd@ == build_command(inputs@, *env)
            &&& run_id@ == run_id_of(fresh_id@)
            &&& log_dir@ == joined(root_dir(*env), "runs/meta3-build"@)
            &&& log_path@ == joined(log_dir@, run_id@ + ".log"@)
            &&& command@ == "cd "@ + shell_quoted(repo@) + " && "@ + build_cmd@ + " 2>&1"@
        },
{
    let repo = build_repo_of(inputs, env);
    let build_cmd = build_command_of(inputs, env);
    let mut id: Vec<char> = Vec::new();
    push_str(&mut id, "r-");
    push_str(&mut id, fresh_id);
    let run_id = text_of(&id);
    let log_dir = match &env.meta3_root {
        Some(r) => join_path(r.as_str(), "runs/meta3-build"),
        None => join_path(".", "runs/meta3-build"),
    };
    push_str(&mut id, ".log");
    let log_name = text_of(&id);
    let log_path = join_path(log_dir.as_str(), log_name.as_str());
    let quoted = shell_quote(repo.as_str());
    let mut cmd: Vec<char> = Vec::new();
    push_str(&mut cmd, "cd ");
    push_str(&mut cmd, quoted.as_str());
    push_str(&mut cmd, " && ");
    push_str(&mut cmd, build_cmd.as_str());
    push_str(&mut cmd, " 2>&1");
    let command = text_of(&cmd);
    Step::Build { command, log_dir, log_path, repo, build_cmd, run_id }
}

/// The step of a command-style goal.
pub fn generic_step(goal_id: &str, inputs: &Json) -> (step: Step)
    ensures
        step matches Step::Execute { command } && command@ == generic_command(goal_id@, inputs@),
{
    let message = inputs.text_or("message", "hello from one-engine");
    let g = chars_of(goal_id);
    if contains_str(&g, "impossible") {
        Step::Execute { command: "false".to_owned() }
    } else if contains_str(&g, "hard") {
        let echo = echo_command(message.as_str());
        let mut out: Vec<char> = Vec::new();
        push_str(&mut out, "sleep 0.1 && ");
        push_str(&mut out, echo.as_str());
        Step::Execute { command: text_of(&out) }
    } else {
        Step::Execute { command: echo_command(message.as_str()) }
    }
}

/// The step of a thread graph goal.
pub fn thread_graph_step(inputs: &Json) -> (step: Step)
    ensures
        step matches Step::ThreadGraph { run_id, user_id, thread, opts } && {
            &&& run_id@ == text_or(inputs@, "__run_id"@, "graph-unknown"@)
            &&& user_id@ == text_or(inputs@, "user_id"@, "demo"@)
            &&& thread@ == text_or(inputs@, "thread"@, "t-default"@)
            &&& opts.max_events == count_or(inputs@, "max_events"@, 80)
            &&& opts.content_chars == count_or(inputs@, "content_chars"@, 120)
            &&& opts.label_mode@ == text_or(inputs@, "label_mode"@, "nl+goal"@)
            &&& opt_view(opts.filter_text) == inputs@.text_at("filter_text"@)
            &&& opt_view(opts.filter_goal) == inputs@.text_at("filter_goal"@)
            &&& opts.recursive == flag_or(inputs@, "recursive"@, false)
            &&& opts.depth == count_or(inputs@, "depth"@, 1)
            &&& opts.max_nodes == count_or(inputs@, "max_nodes"@, 200)
            &&& opts.include_bits == flag_or(inputs@, "include_bits"@, true)
        },
{
    Step::ThreadGraph {
        run_id: inputs.text_or("__run_id", "graph-unknown"),
        user_id: inputs.text_or("user_id", "demo"),
        thread: inputs.text_or("thread", "t-default"),
        opts: ThreadGraphOpts {
            max_events: inputs.count_or("max_events", 80),
            content_chars: inputs.count_or("content_chars", 120),
            label_mode: inputs.text_or("label_mode", "nl+goal"),
            filter_text: inputs.text_at("filter_text"),
            filter_goal: inputs.text_at("filter_goal"),
            recursive: inputs.flag_or("recursive", false),
            depth: inputs.count_or("depth", 1),
            max_nodes: inputs.count_or("max_nodes", 200),
            include_bits: inputs.flag_or("include_bits", true),
        },
    }
}

/// The step of an API graph goal.
pub fn api_graph_step(inputs: &Json) -> (step: Step)
    ensures
        step matches Step::ApiGraph { run_id, opts } && {
            &&& run_id@ == text_or(inputs@, "__run_id"@, "graph-unknown"@)
            &&& opts.limit == count_or(inputs@, "limit"@, 800)
            &&& opts.only_mutations == flag_or(inputs@, "only_mutations"@, false)
            &&& opts.collapse == flag_or(inputs@, "collapse"@, true)
            &&& opt_view(opts.run_id) == inputs@.text_at("run_id"@)
            &&& opt_view(opts.thread) == inputs@.text_at("thread"@)
            &&& opt_view(opts.user_id) == inputs@.text_at("user_id"@)
        },
{
    Step::ApiGraph {
        run_id: inputs.text_or("__run_id", "graph-unknown"),
        opts: ApiGraphOpts {
            limit: inputs.count_or("limit", 800),
            only_mutations: inputs.flag_or("only_mutations", false),
            run_id: inputs.text_at("run_id"),
            thread: inputs.text_at("thread"),
            user_id: inputs.text_at("user_id"),
            collapse: inputs.flag_or("collapse", true),
        },
    }
}

/// The step of a thread report goal.
pub fn thread_report_step(inputs: &Json) -> (step: Step)
    ensures
        step matches Step::ThreadReport { run_id, opts } && {
            &&& run_id@ == text_or(inputs@, "__run_id"@, "thread-unknown"@)
            &&& opts.user_id@ == text_or(inputs@, "user_id"@, "demo"@)
            &&& opts.thread@ == text_or(inputs@, "thread"@, "auto"@)
            &&& opts.max_events == count_or(inputs@, "max_events"@, 200)
            &&& opts.content_chars == count_or(inputs@, "content_chars"@, 220)
        },
{
    Step::ThreadReport {
        run_id: inputs.text_or("__run_id", "thread-unknown"),
        opts: ThreadReportOpts {
            user_id: inputs.text_or("user_id", "demo"),
            thread: inputs.text_or("thread", "auto"),
            max_events: inputs.count_or("max_events", 200),
            content_chars: inputs.count_or("content_chars", 220),
        },
    }
}

/// The file that a read goal names.
pub fn read_path_of(inputs: &Json) -> (r: Option<String>)
    ensures
        opt_view(r) == read_path(inputs@),
{
    match inputs.get("path") {
        Some(v) => match v.as_str() {
            Some(s) => Some(s.to_owned()),
            None => None,
        },
        None => inputs.text_at("context_path"),
    }
}

/// `r` is how a run of the goal `goal` starts at the instant `now`. With a
/// stale context the admission gate is closed: an action ends at once with
/// a request for clarification and without a step, any other goal fails.
/// With a fresh context the run fails where its input lacks a field that
/// its behavior needs, and else waits for its first step.
pub open spec fn started(
    control: KernelLoop,
    goal: Seq<char>,
    inputs: JsonView,
    env: Surroundings,
    now: (i64, u32),
    fresh: Seq<char>,
    r: Result<Next, String>,
) -> bool {
    match r {
        Ok(Next::Done(f)) => {
            &&& context_stale(inputs, now)
            &&& is_action(goal)
            &&& clarified(f, stale_bits(goal), goal, fresh)
        },
        Ok(Next::More(run)) => {
            &&& !context_stale(inputs, now)
            &&& start_error(goal, inputs, now) is None
            &&& run.goal_id@ == goal
            &&& run.kind == kind_of(goal)
            &&& run.bits == started_bits(goal)
            &&& if kind_of(goal) == GoalKind::Ruliad {
                run.closing matches Some(f) && ruliad_result(goal, inputs, fresh, f)
            } else {
                run.closing is None
            }
            &&& run.needs_verification == (uncertainty_of(goal)
                >= control.l2_params.confidence_gate_tau)
            &&& first_step(goal, inputs, env, fresh, run.step)
        },
        Err(msg) => start_error(goal, inputs, now) == Some(msg@),
    }
}

/// Starts a run at the instant `now`: sets the freshness and uncertainty
/// bits, applies the admission gate, and chooses the first step by the
/// behavior of the goal. `fresh_id` is a fresh unique identifier, used where
/// the behavior names files after the run.
///
/// Where some context item has expired admission is closed: an action ends
/// at once with a request for clarification, any other goal fails to
/// start. A run with a fresh context fails to start exactly when its input
/// lacks a field that its behavior needs.
pub fn start_at(
    control: &KernelLoop,
    goal_id: &str,
    inputs: &Json,
    env: &Surroundings,
    now: (i64, u32),
    fresh_id: &str,
) -> (r: Result<Next, String>)
    ensures
        started(*control, goal_id@, inputs@, *env, now, fresh_id@, r),
{
    let mut bits = ExtendedBits::init();
    if is_context_stale(inputs, now) {
        bits.d = 1_000_000;
    }
    bits.u = initial_uncertainty(goal_id);
    if !(bits.a >= 1_000_000 && bits.p >= 1_000_000 && bits.d == 0) {
        if is_action_goal(goal_id) {
            return Ok(Next::Done(clarify(control, bits, goal_id.to_owned(), fresh_id)));
        }
        let mut out: Vec<char> = Vec::new();
        push_str(&mut out, "Ask-Act gate failed: A=");
        push_plain(&mut out, bits.a);
        push_str(&mut out, ", P=");
        push_plain(&mut out, bits.p);
        push_str(&mut out, ", Δ=");
        push_plain(&mut out, bits.d);
        return Err(text_of(&out));
    }
    let kind = classify(goal_id);
    let step = match kind {
        GoalKind::AlignSota => {
            let message = inputs.text_or("message", "align.sota");
            Step::Execute { command: echo_command(message.as_str()) }
        },
        GoalKind::ResearchRead => match read_path_of(inputs) {
            Some(path) => Step::ReadFile { path },
            None => {
                return Err("path or context_path is required".to_owned());
            },
        },
        GoalKind::WikiGenerate => Step::Wiki { run_id: inputs.text_or("__run_id", "wiki-unknown") },
        GoalKind::GraphsThread => thread_graph_step(inputs),
        GoalKind::GraphsReceipts => Step::ReceiptsGraph {
            run_id: inputs.text_or("__run_id", "graph-unknown"),
            limit: inputs.count_or("limit", 200),
        },
        GoalKind::GraphsApi => api_graph_step(inputs),
        GoalKind::Meta3Build => build_step(inputs, env, fresh_id),
        GoalKind::Ruliad => {
            let run_id = run_id_from(fresh_id);
            let out_dir = join_path("runs/ruliad_kernel", run_id.as_str());
            let seed = inputs.text_or("seed", "01");
            let depth = inputs.count_or("depth", 8);
            let rules = parse_rules(inputs);
            let g = multiway(&chars_of(seed.as_str()), &rules, depth);
            let states = state_records(&g);
            let edges = step_records(&g);
            proof {
                assert(items_view(states@) =~= Seq::new(
                    g@.states.len(),
                    |i: int| state_record(g@, i),
                ));
                assert(items_view(edges@) =~= Seq::new(
                    g@.steps.len(),
                    |i: int| step_record(g@, i),
                ));
            }
            let finished = finish_ruliad(
                control,
                bits,
                goal_id.to_owned(),
                run_id,
                out_dir.as_str(),
                seed.as_str(),
                depth,
                rules_json(&rules),
                g.states.len(),
                g.steps.len(),
            );
            let f = match finished {
                Ok(f) => f,
                Err(e) => {
                    return Err(e);
                },
            };
            let needs_verification = !control.evidence_gate(&bits);
            return Ok(
                Next::More(
                    Run {
                        goal_id: goal_id.to_owned(),
                        kind,
                        bits,
                        step: Step::Ruliad {
                            out_dir,
                            states,
                            edges,
                            multiway_dot: render_dot(&g, "multiway", true),
                            causal_dot: render_dot(&g, "causal", false),
                            index_html: render_page(&rules, depth),
                        },
                        closing: Some(f),
                        needs_verification,
                    },
                ),
            );
        },
        GoalKind::ThreadsReport => thread_report_step(inputs),
        GoalKind::ShellExec => match inputs.text_at("cmd") {
            Some(command) => Step::Execute { command },
            None => {
                return Err("cmd is required".to_owned());
            },
        },
        GoalKind::FileWrite => {
            let path = match inputs.text_at("path") {
                Some(p) => p,
                None => {
                    return Err("path required".to_owned());
                },
            };
            let content = match inputs.text_at("content") {
                Some(c) => c,
                None => {
                    return Err("content required".to_owned());
                },
            };
            Step::WriteFile { path, content }
        },
        GoalKind::MetaOmni => Step::Converse,
        GoalKind::Generic => generic_step(goal_id, inputs),
    };
    let needs_verification = !control.evidence_gate(&bits);
    Ok(
        Next::More(
            Run { goal_id: goal_id.to_owned(), kind, bits, step, closing: None, needs_verification },
        ),
    )
}

/// The manifest `m` holds exactly these values.
pub open spec fn manifest_is(
    m: Manifest,
    run_id: Seq<char>,
    goal: Seq<char>,
    deliverables: Seq<Seq<char>>,
    evidence: JsonView,
    bits: Bits,
) -> bool {
    &&& m.run_id@ == run_id
    &&& m.goal_id@ == goal
    &&& views(m.deliverables@) == deliverables
    &&& m.evidence@ == evidence
    &&& m.bits == bits
}

/// The uncertainty after a failure: two tenths higher, and at most one.
pub open spec fn raised(u: i64) -> i64 {
    if u >= 800_000 {
        1_000_000
    } else {
        (u + 200_000) as i64
    }
}

/// The bits after a command was executed: a failure sets the error bit and
/// raises the uncertainty, a drift signal sets the drift bit.
pub open spec fn after_execution(bits: ExtendedBits, ok: bool, drift: bool) -> ExtendedBits {
    ExtendedBits {
        d: if drift {
            1_000_000
        } else {
            bits.d
        },
        e: if !ok {
            1_000_000
        } else {
            bits.e
        },
        u: if !ok {
            raised(bits.u)
        } else {
            bits.u
        },
        ..bits
    }
}

/// The bits after a command was executed.
pub fn absorb_execution(bits: ExtendedBits, ok: bool, drift: bool) -> (r: ExtendedBits)
    ensures
        r == after_execution(bits, ok, drift),
{
    let mut b = bits;
    if drift {
        b.d = 1_000_000;
    }
    if !ok {
        b.e = 1_000_000;
        b.u = if b.u >= 800_000 {
            1_000_000
        } else {
            b.u + 200_000
        };
    }
    b
}

/// The minimal verification of a result: it succeeded and printed something
/// other than white space.
pub open spec fn passed(res: ExecResult) -> bool {
    res.ok && !blank(res.stdout@)
}

/// The trust in an executed result: the score that its verification earns,
/// times `tenths` tenths where the result is `penalized`.
pub open spec fn trust_after(bits: ExtendedBits, passed: bool, penalized: bool, tenths: i64) -> i64 {
    let t = trust_of(passed, surfaced(bits));
    if penalized {
        weighted(t, tenths) as i64
    } else {
        t
    }
}

/// The trust in an executed result.
pub fn score_trust(bits: &ExtendedBits, passed: bool, penalized_result: bool, tenths: i64) -> (t:
    i64)
    requires
        0 <= tenths <= 10,
    ensures
        t == trust_after(*bits, passed, penalized_result, tenths),
        0 <= t <= 900_000,
{
    let legacy: Bits = Bits {
        a: bits.a,
        u: bits.u,
        p: bits.p,
        e: bits.e,
        d: bits.d,
        i: bits.i,
        r: bits.r,
        t: bits.t,
        m: bits.m,
    };
    let t = trust_from(passed, &legacy);
    if penalized_result {
        penalized(t, tenths)
    } else {
        t
    }
}

/// A goal is classified as an action: its identifier holds `action` or
/// `execute`.
pub open spec fn is_action(goal: Seq<char>) -> bool {
    contains_text(goal, "action"@) || contains_text(goal, "execute"@)
}

/// Whether a goal is classified as an action.
pub fn is_action_goal(goal_id: &str) -> (r: bool)
    ensures
        r == is_action(goal_id@),
{
    let g = chars_of(goal_id);
    contains_str(&g, "action") || contains_str(&g, "execute")
}

/// The error of a run whose finished bits are not complete.
pub open spec fn contract_violation(bits: ExtendedBits) -> Seq<char> {
    match bits.offending() {
        Some((name, value)) => "Kernel contract violation: "@ + invalid_bit(name, value),
        None => "Kernel contract violation: "@,
    }
}

/// Validates the finished bits of a run: an error exactly when some scalar
/// lies outside the unit interval.
pub fn check_complete(control: &KernelLoop, bits: &ExtendedBits) -> (r: Result<(), String>)
    ensures
        r is Ok <==> bits.complete(),
        r matches Err(msg) ==> msg@ == contract_violation(*bits),
{
    match control.validate_bits_complete(bits) {
        Ok(()) => Ok(()),
        Err(e) => Err(concat("Kernel contract violation: ", e.as_str())),
    }
}

/// The surfaced bits with the same nine scalars as `ext`.
pub fn surface(ext: &ExtendedBits) -> (b: Bits)
    ensures
        b == surfaced(*ext),
{
    Bits {
        a: ext.a,
        u: ext.u,
        p: ext.p,
        e: ext.e,
        d: ext.d,
        i: ext.i,
        r: ext.r,
        t: ext.t,
        m: ext.m,
    }
}

/// The identifier of a run, made from a fresh unique identifier.
pub fn run_id_from(fresh_id: &str) -> (r: String)
    ensures
        r@ == run_id_of(fresh_id@),
{
    concat("r-", fresh_id)
}

/// The texts of `items` as a list of text values.
pub open spec fn text_list(items: Seq<String>) -> JsonView {
    JsonView::List(Seq::new(items.len(), |i: int| JsonView::Text(items[i]@)))
}

/// The texts of `items` as a list of text values.
pub fn text_list_of(items: &Vec<String>) -> (r: Json)
    ensures
        r@ == text_list(items@),
{
    let mut out: Vec<Json> = Vec::new();
    let mut i: usize = 0;
    while i < items.len()
        invariant
            i <= items.len(),
            out@.len() == i,
            forall|j: int| 0 <= j < i ==> (#[trigger] out@[j])@ == JsonView::Text(items@[j]@),
        decreases items.len() - i,
    {
        out.push(Json::Text(items[i].clone()));
        i += 1;
    }
    let r = Json::List(out);
    assert(items_view(out@) =~= Seq::new(items@.len(), |i: int| JsonView::Text(items@[i]@)));
    r
}

/// The parameters of the fast control loop, as they stand in the evidence of
/// a run.
pub open spec fn l2_evidence(control: KernelLoop) -> JsonView {
    JsonView::Object(
        seq![
            ("ask_act_threshold"@, JsonView::Real(control.l2_params.ask_act_threshold as int)),
            ("backoff_k"@, JsonView::Int(control.l2_params.backoff_k as int)),
            ("confidence_gate_tau"@, JsonView::Real(control.l2_params.confidence_gate_tau as int)),
            ("retry_strategies"@, text_list(control.l2_params.retry_strategies@)),
        ],
    )
}

/// The parameters of the fast control loop, as evidence.
pub fn l2_evidence_of(control: &KernelLoop) -> (r: Json)
    ensures
        r@ == l2_evidence(*control),
{
    let mut e: Vec<(String, Json)> = Vec::new();
    put(&mut e, "ask_act_threshold", Json::Real(control.l2_params.ask_act_threshold));
    put(&mut e, "backoff_k", Json::Int(control.l2_params.backoff_k as i64));
    put(&mut e, "confidence_gate_tau", Json::Real(control.l2_params.confidence_gate_tau));
    put(&mut e, "retry_strategies", text_list_of(&control.l2_params.retry_strategies));
    let r = Json::Object(e);
    assert(entries_view(e@) =~= seq![
        ("ask_act_threshold"@, JsonView::Real(control.l2_params.ask_act_threshold as int)),
        ("backoff_k"@, JsonView::Int(control.l2_params.backoff_k as int)),
        ("confidence_gate_tau"@, JsonView::Real(control.l2_params.confidence_gate_tau as int)),
        ("retry_strategies"@, text_list(control.l2_params.retry_strategies@)),
    ]);
    r
}

/// The evidence of a finished command-style run.
pub open spec fn generic_evidence(
    control: KernelLoop,
    stdout: Seq<char>,
    expected: bool,
    actual: bool,
    triggered: bool,
) -> JsonView {
    JsonView::Object(
        seq![
            ("actual_success"@, JsonView::Bool(actual)),
            ("expected_success"@, JsonView::Bool(expected)),
            ("l2_params"@, l2_evidence(control)),
            ("meta2_triggered"@, JsonView::Bool(triggered)),
            ("stdout"@, JsonView::Text(stdout)),
        ],
    )
}

/// What a blocked action tells its caller.
pub open spec fn clarification(bits: ExtendedBits) -> Seq<char> {
    "Ask-Act gate: "@ + ask_act_failure(bits) + ". Need P=1, A=1, Δ=0"@
}

/// The evidence of an action that was blocked after the fact.
pub open spec fn clarification_evidence(bits: ExtendedBits) -> JsonView {
    JsonView::Object(
        seq![
            ("files"@, JsonView::List(Seq::<JsonView>::empty())),
            ("stderr"@, JsonView::Text(Seq::<char>::empty())),
            ("stdout"@, JsonView::Text(clarification(bits))),
        ],
    )
}

/// `f` is how a blocked action ends: with the bits as they stand, no
/// proposal, and a manifest under the fresh identifier that delivers a
/// request for clarification and says which scalars closed admission.
pub open spec fn clarified(f: Finished, bits: ExtendedBits, goal: Seq<char>, fresh: Seq<char>) -> bool {
    &&& f.bits == bits
    &&& f.proposal is None
    &&& manifest_is(
        f.manifest,
        fresh,
        goal,
        seq!["clarification_required"@],
        clarification_evidence(bits),
        surfaced(bits),
    )
}

/// Ends a blocked action with a request for clarification.
fn clarify(control: &KernelLoop, bits: ExtendedBits, goal_id: String, fresh_id: &str) -> (f:
    Finished)
    requires
        !bits.admits(),
    ensures
        clarified(f, bits, goal_id@, fresh_id@),
{
    let reason = match control.enforce_ask_act_gate(&bits) {
        Err(e) => e,
        Ok(()) => String::new(),
    };
    let text = concat3("Ask-Act gate: ", reason.as_str(), ". Need P=1, A=1, Δ=0");
    let mut ev: Vec<(String, Json)> = Vec::new();
    put(&mut ev, "files", Json::List(Vec::new()));
    put(&mut ev, "stderr", Json::text(""));
    put(&mut ev, "stdout", Json::Text(text));
    let evidence = Json::Object(ev);
    proof {
        reveal_strlit("");
        assert(""@ =~= Seq::<char>::empty());
        assert(items_view(Seq::<Json>::empty()) =~= Seq::<JsonView>::empty());
        assert(entries_view(ev@) =~= seq![
            ("files"@, JsonView::List(Seq::<JsonView>::empty())),
            ("stderr"@, JsonView::Text(Seq::<char>::empty())),
            ("stdout"@, JsonView::Text(clarification(bits))),
        ]);
    }
    let mut deliverables: Vec<String> = Vec::new();
    deliverables.push("clarification_required".to_owned());
    assert(views(deliverables@) =~= seq!["clarification_required"@]);
    let manifest = Manifest {
        run_id: fresh_id.to_owned(),
        goal_id,
        deliverables,
        evidence,
        bits: surface(&bits),
    };
    Finished { manifest, bits, proposal: None }
}

/// The bits of a command-style run after its command was executed with the
/// result `res`, where `kpi` is the KPI history before the run.
pub open spec fn generic_bits(run: Run, res: ExecResult, kpi: Seq<i64>) -> ExtendedBits {
    let b = after_execution(run.bits, res.ok, res.drift);
    let t = generic_trust(run, res);
    ExtendedBits {
        t,
        m: if degraded_twice(bounded(kpi.push(t))) {
            1_000_000
        } else {
            b.m
        },
        ..b
    }
}

/// The trust of a command-style run: the score of its verification, times
/// seven tenths where the result went against what was expected of the goal.
pub open spec fn generic_trust(run: Run, res: ExecResult) -> i64 {
    trust_after(
        after_execution(run.bits, res.ok, res.drift),
        passed(res),
        expected_success(run.goal_id@) != passed(res),
        7,
    )
}

/// `r` is how a command-style run ends once its command was executed with
/// the result `res`, the kernel going from `k0` to `k1`.
///
/// The trust is appended to the KPI history; where the history then shows a
/// two-step degradation the meta bit is set and a change proposed. A run
/// whose bits are not complete fails. An action whose bits do not pass the
/// admission gate ends with a request for clarification and leaves no trace;
/// every other run is traced and ends with its manifest.
pub open spec fn generic_finished(
    k0: Kernel,
    k1: Kernel,
    run: Run,
    res: ExecResult,
    fresh: Seq<char>,
    r: Result<Finished, String>,
) -> bool {
    let t = generic_trust(run, res);
    let kpi = bounded(k0.kpi_history@.push(t));
    let bits = generic_bits(run, res, k0.kpi_history@);
    &&& k1.kpi_history@ == kpi
    &&& k1.control == k0.control
    &&& k1.align_boost == k0.align_boost
    &&& match r {
        Err(msg) => !bits.complete() && msg@ == contract_violation(bits) && k1.trace_history
            == k0.trace_history,
        Ok(f) => {
            &&& bits.complete()
            &&& f.bits == bits
            &&& if is_action(run.goal_id@) && !bits.admits() {
                &&& k1.trace_history == k0.trace_history
                &&& clarified(f, bits, run.goal_id@, fresh)
            } else {
                &&& k1.trace_history@ == bounded(k0.trace_history@.push(bits))
                &&& if degraded_twice(kpi) {
                    proposes(k0.control, "evidence_coverage"@, t, f.proposal)
                } else {
                    f.proposal is None
                }
                &&& manifest_is(
                    f.manifest,
                    run_id_of(fresh),
                    run.goal_id@,
                    Seq::<Seq<char>>::empty(),
                    generic_evidence(
                        k0.control,
                        res.stdout@,
                        expected_success(run.goal_id@),
                        passed(res),
                        bits.m > 0,
                    ),
                    surfaced(bits),
                )
            }
        },
    }
}

/// Finishes a command-style run once its command was executed.
pub fn finish_generic(kernel: &mut Kernel, run: Run, res: ExecResult, fresh_id: &str) -> (r:
    Result<Finished, String>)
    requires
        old(kernel).wf(),
    ensures
        final(kernel).wf(),
        generic_finished(*old(kernel), *final(kernel), run, res, fresh_id@, r),
{
    let mut bits = absorb_execution(run.bits, res.ok, res.drift);
    let actual = check_minimal(&res);
    let g = chars_of(run.goal_id.as_str());
    let expected = !contains_str(&g, "impossible");
    let t = score_trust(&bits, actual, expected != actual, 7);
    bits.t = t;
    kernel.record_kpi(t);
    let wake = kernel.control.should_wake_l3(kernel.kpi_history.as_slice());
    let mut proposal: Option<Meta2Proposal> = None;
    if wake {
        bits.m = 1_000_000;
        proposal = kernel.control.propose_meta2_change("evidence_coverage", t);
    }
    match check_complete(&kernel.control, &bits) {
        Err(e) => {
            return Err(e);
        },
        Ok(()) => {},
    }
    if is_action_goal(run.goal_id.as_str()) && !kernel.control.ask_act_gate(&bits) {
        return Ok(clarify(&kernel.control, bits, run.goal_id, fresh_id));
    }
    kernel.record_trace(bits);
    let mut ev: Vec<(String, Json)> = Vec::new();
    put(&mut ev, "actual_success", Json::Bool(actual));
    put(&mut ev, "expected_success", Json::Bool(expected));
    put(&mut ev, "l2_params", l2_evidence_of(&kernel.control));
    put(&mut ev, "meta2_triggered", Json::Bool(bits.m > 0));
    put(&mut ev, "stdout", Json::Text(res.stdout));
    let evidence = Json::Object(ev);
    proof {
        assert(entries_view(ev@) =~= seq![
            ("actual_success"@, JsonView::Bool(actual)),
            ("expected_success"@, JsonView::Bool(expected)),
            ("l2_params"@, l2_evidence(kernel.control)),
            ("meta2_triggered"@, JsonView::Bool(bits.m > 0)),
            ("stdout"@, JsonView::Text(res.stdout@)),
        ]);
    }
    let deliverables: Vec<String> = Vec::new();
    assert(views(deliverables@) =~= Seq::<Seq<char>>::empty());
    let manifest = Manifest {
        run_id: run_id_from(fresh_id),
        goal_id: run.goal_id,
        deliverables,
        evidence,
        bits: surface(&bits),
    };
    Ok(Finished { manifest, bits, proposal })
}

/// What came of the step that the caller did.
pub enum Outcome {
    /// The executor ran the command.
    Executed(ExecResult),
    /// The file was read: its text, and its modification time in seconds
    /// since the Unix epoch (zero where it is not known).
    FileRead { content: String, mtime: i64 },
    /// The file was written.
    Written,
    Wiki(WikiResult),
    ThreadGraph(ThreadGraphResult),
    ReceiptsGraph(ReceiptsGraphResult),
    ApiGraph(ApiGraphResult),
    ThreadReport(ThreadReportResult),
    /// The persona answered.
    Conversed(Json),
    /// The step failed, for this reason.
    Failed(String),
}

/// How a run goes on, at its start and after each step.
pub enum Next {
    /// One more step is to be done.
    More(Run),
    /// The run has ended.
    Done(Finished),
}

/// The log of a build: what it printed, and where it printed errors, both
/// outputs under their headings.
pub open spec fn build_log(res: ExecResult) -> Seq<char> {
    if res.stderr@.len() == 0 {
        res.stdout@
    } else {
        "STDOUT:\\n"@ + res.stdout@ + "\\nSTDERR:\\n"@ + res.stderr@
    }
}

/// The bits of a build after its command was executed: those after the
/// execution, with the trust that its verification earns, times eight tenths
/// where it did not pass.
pub open spec fn build_bits(bits: ExtendedBits, res: ExecResult) -> ExtendedBits {
    let b = after_execution(bits, res.ok, res.drift);
    ExtendedBits { t: trust_after(b, passed(res), !passed(res), 8), ..b }
}

/// The evidence of a build.
pub open spec fn build_evidence(
    repo: Seq<char>,
    build_cmd: Seq<char>,
    log_path: Seq<char>,
    run_id: Seq<char>,
    res: ExecResult,
    triggered: bool,
) -> JsonView {
    JsonView::Object(
        seq![
            ("actual_success"@, JsonView::Bool(passed(res))),
            ("build_cmd"@, JsonView::Text(build_cmd)),
            ("expected_success"@, JsonView::Bool(true)),
            ("log_path"@, JsonView::Text(log_path)),
            ("meta2_triggered"@, JsonView::Bool(triggered)),
            ("repo_path"@, JsonView::Text(repo)),
            ("run_id"@, JsonView::Text(run_id)),
            ("stdout"@, JsonView::Text(res.stdout@)),
        ],
    )
}

/// The result of a build, once its command was executed, and the log that is
/// still to be written. The build fails here where its bits are not complete.
pub fn settle_build(
    control: &KernelLoop,
    bits: ExtendedBits,
    goal_id: String,
    repo: &str,
    build_cmd: &str,
    log_path: &str,
    run_id: &str,
    res: ExecResult,
) -> (r: Result<(Finished, String), String>)
    ensures
        match r {
            Ok((f, log)) => log@ == build_log(res) && plainly_finished(
                build_bits(bits, res),
                goal_id@,
                run_id@,
                seq![log_path@],
                build_evidence(repo@, build_cmd@, log_path@, run_id@, res, bits.m > 0),
                Ok(f),
            ),
            Err(msg) => plainly_finished(
                build_bits(bits, res),
                goal_id@,
                run_id@,
                seq![log_path@],
                build_evidence(repo@, build_cmd@, log_path@, run_id@, res, bits.m > 0),
                Err(msg),
            ),
        },
{
    let log = if res.stderr.as_str().unicode_len() == 0 {
        res.stdout.clone()
    } else {
        let mut out: Vec<char> = Vec::new();
        push_str(&mut out, "STDOUT:\\n");
        push_str(&mut out, res.stdout.as_str());
        push_str(&mut out, "\\nSTDERR:\\n");
        push_str(&mut out, res.stderr.as_str());
        text_of(&out)
    };
    let mut b = absorb_execution(bits, res.ok, res.drift);
    let actual = check_minimal(&res);
    b.t = score_trust(&b, actual, !actual, 8);
    let mut ev: Vec<(String, Json)> = Vec::new();
    put(&mut ev, "actual_success", Json::Bool(actual));
    put(&mut ev, "build_cmd", Json::text(build_cmd));
    put(&mut ev, "expected_success", Json::Bool(true));
    put(&mut ev, "log_path", Json::text(log_path));
    put(&mut ev, "meta2_triggered", Json::Bool(b.m > 0));
    put(&mut ev, "repo_path", Json::text(repo));
    put(&mut ev, "run_id", Json::text(run_id));
    put(&mut ev, "stdout", Json::Text(res.stdout));
    assert(entries_view(ev@) =~= build_evidence(
        repo@,
        build_cmd@,
        log_path@,
        run_id@,
        res,
        bits.m > 0,
    )->Object_0);
    let mut deliverables: Vec<String> = Vec::new();
    deliverables.push(log_path.to_owned());
    assert(views(deliverables@) =~= seq![log_path@]);
    match finish_plainly(control, b, goal_id, run_id.to_owned(), deliverables, Json::Object(ev)) {
        Ok(f) => Ok((f, log)),
        Err(e) => Err(e),
    }
}

/// The reply of the persona, or the sign that it gave none.
pub open spec fn reply_of(answer: JsonView) -> Seq<char> {
    text_or(answer, "reply"@, "⟂ no reply"@)
}

/// The level that the answer of the persona gives for the bit `key`, or
/// `current` where it gives none.
pub open spec fn answered(answer: JsonView, key: Seq<char>, current: i64) -> i64 {
    match answer.get("bits"@) {
        Some(b) => match b.level_at(key) {
            Some(x) => x,
            None => current,
        },
        None => current,
    }
}

/// The bits after the persona answered: it may set the bits A, U, P and E.
pub open spec fn conversed_bits(bits: ExtendedBits, answer: JsonView) -> ExtendedBits {
    ExtendedBits {
        a: answered(answer, "A"@, bits.a),
        u: answered(answer, "U"@, bits.u),
        p: answered(answer, "P"@, bits.p),
        e: answered(answer, "E"@, bits.e),
        ..bits
    }
}

/// The evidence of a conversation: the evidence of the manifest that the
/// answer carries, or the whole answer where it carries none.
pub open spec fn conversed_evidence(answer: JsonView) -> JsonView {
    match answer.get("manifest"@) {
        Some(m) => match m.get("evidence"@) {
            Some(e) => e,
            None => answer,
        },
        None => answer,
    }
}

/// The level that the answer gives for the bit `key`, or `current`.
pub fn answered_level(answer: &Json, key: &str, current: i64) -> (r: i64)
    ensures
        r == answered(answer@, key@, current),
{
    match answer.get("bits") {
        Some(b) => match b.level_at(key) {
            Some(x) => x,
            None => current,
        },
        None => current,
    }
}

/// The result of a conversation, once the persona answered, and the command
/// that is still to echo its reply. The run fails here where its bits are not
/// complete.
pub fn settle_conversation(
    control: &KernelLoop,
    bits: ExtendedBits,
    goal_id: String,
    answer: &Json,
    fresh_id: &str,
) -> (r: Result<(Finished, String), String>)
    ensures
        match r {
            Ok((f, command)) => command@ == echo_of(reply_of(answer@)) && plainly_finished(
                conversed_bits(bits, answer@),
                goal_id@,
                run_id_of(fresh_id@),
                Seq::<Seq<char>>::empty(),
                conversed_evidence(answer@),
                Ok(f),
            ),
            Err(msg) => plainly_finished(
                conversed_bits(bits, answer@),
                goal_id@,
                run_id_of(fresh_id@),
                Seq::<Seq<char>>::empty(),
                conversed_evidence(answer@),
                Err(msg),
            ),
        },
{
    let reply = answer.text_or("reply", "⟂ no reply");
    let mut b = bits;
    b.a = answered_level(answer, "A", bits.a);
    b.u = answered_level(answer, "U", bits.u);
    b.p = answered_level(answer, "P", bits.p);
    b.e = answered_level(answer, "E", bits.e);
    let evidence = match answer.get("manifest") {
        Some(m) => match m.get("evidence") {
            Some(e) => e.copy(),
            None => answer.copy(),
        },
        None => answer.copy(),
    };
    let deliverables: Vec<String> = Vec::new();
    assert(views(deliverables@) =~= Seq::<Seq<char>>::empty());
    match finish_plainly(control, b, goal_id, run_id_from(fresh_id), deliverables, evidence) {
        Ok(f) => Ok((f, echo_command(reply.as_str()))),
        Err(e) => Err(e),
    }
}

/// The error of an outcome that does not answer the step that was asked for.
pub open spec fn unexpected() -> Seq<char> {
    "unexpected outcome"@
}

/// The result `r` is the error `text`.
pub open spec fn fails_with(r: Result<Next, String>, text: Seq<char>) -> bool {
    match r {
        Err(msg) => msg@ == text,
        Ok(_) => false,
    }
}

/// What a result says about the end of the run: nothing where the run goes
/// on.
pub open spec fn ended(r: Result<Next, String>) -> Option<Result<Finished, String>> {
    match r {
        Ok(Next::Done(f)) => Some(Ok(f)),
        Ok(Next::More(_)) => None,
        Err(e) => Some(Err(e)),
    }
}

/// The kernel `k1` is `k0` with the alignment boost set to `boost`.
pub open spec fn kernel_with_boost(k0: Kernel, k1: Kernel, boost: i64) -> bool {
    &&& k1.control == k0.control
    &&& k1.kpi_history == k0.kpi_history
    &&& k1.trace_history == k0.trace_history
    &&& k1.align_boost == boost
}

/// The alignment boost after a step of a run of this kind: an alignment run
/// sets it to one tenth, any other leaves it.
pub open spec fn boost_after(kind: GoalKind, boost: i64) -> i64 {
    if kind == GoalKind::AlignSota {
        100_000
    } else {
        boost
    }
}

/// `r` is how the run goes on after the executor ran its command.
pub open spec fn executed(
    k0: Kernel,
    k1: Kernel,
    run: Run,
    res: ExecResult,
    fresh: Seq<char>,
    r: Result<Next, String>,
) -> bool {
    match (run.kind, run.step) {
        (GoalKind::AlignSota, Step::Execute { .. }) => {
            &&& kernel_with_boost(k0, k1, 100_000)
            &&& ended(r) matches Some(rf) && align_finished(
                run.bits,
                run.goal_id@,
                res.stdout@,
                fresh,
                rf,
            )
        },
        (GoalKind::ShellExec, Step::Execute { command }) => {
            &&& k1 == k0
            &&& ended(r) matches Some(rf) && plainly_finished(
                shell_bits(run.bits, res.ok),
                run.goal_id@,
                run_id_of(fresh),
                Seq::<Seq<char>>::empty(),
                shell_evidence(command@, res, run.bits.m > 0),
                rf,
            )
        },
        (GoalKind::Generic, Step::Execute { .. }) => {
            ended(r) matches Some(rf) && generic_finished(k0, k1, run, res, fresh, rf)
        },
        (GoalKind::Meta3Build, Step::Build { repo, build_cmd, log_path, run_id, .. }) => {
            &&& k1 == k0
            &&& match r {
                Err(msg) => plainly_finished(
                    build_bits(run.bits, res),
                    run.goal_id@,
                    run_id@,
                    seq![log_path@],
                    build_evidence(repo@, build_cmd@, log_path@, run_id@, res, run.bits.m > 0),
                    Err(msg),
                ),
                Ok(Next::Done(_)) => false,
                Ok(Next::More(next)) => {
                    &&& next.goal_id@ == run.goal_id@
                    &&& next.kind == run.kind
                    &&& next.bits == build_bits(run.bits, res)
                    &&& next.step matches Step::WriteFile { path, content } && path@ == log_path@
                        && content@ == build_log(res)
                    &&& next.closing matches Some(f) && plainly_finished(
                        build_bits(run.bits, res),
                        run.goal_id@,
                        run_id@,
                        seq![log_path@],
                        build_evidence(repo@, build_cmd@, log_path@, run_id@, res, run.bits.m > 0),
                        Ok(f),
                    )
                },
            }
        },
        _ => k1 == k0 && fails_with(r, unexpected()),
    }
}

/// `r` is how the run goes on after a collaborator delivered.
pub open spec fn delivered(
    run: Run,
    inputs: JsonView,
    outcome: Outcome,
    fresh: Seq<char>,
    r: Result<Next, String>,
) -> bool {
    match (run.kind, run.step, outcome) {
        (GoalKind::ResearchRead, Step::ReadFile { path }, Outcome::FileRead { content, mtime }) => {
            ended(r) matches Some(rf) && plainly_finished(
                read_bits(
                    run.bits,
                    stale_reason(inputs, sha256_hex(vstd::utf8::encode_utf8(content@)), mtime)
                        is Some,
                ),
                run.goal_id@,
                run_id_of(fresh),
                Seq::<Seq<char>>::empty(),
                read_evidence(inputs, path@, content@, mtime),
                rf,
            )
        },
        (GoalKind::WikiGenerate, Step::Wiki { run_id }, Outcome::Wiki(res)) => {
            ended(r) matches Some(rf) && plainly_finished(
                settled(run.bits, 200_000, 0, 950_000),
                run.goal_id@,
                run_id_of(fresh),
                files_in(res.out_dir@, wiki_files()),
                wiki_evidence(res, run_id@, run.bits.m > 0),
                rf,
            )
        },
        (
            GoalKind::GraphsThread,
            Step::ThreadGraph { run_id, user_id, .. },
            Outcome::ThreadGraph(res),
        ) => {
            ended(r) matches Some(rf) && plainly_finished(
                settled(run.bits, 200_000, 0, 950_000),
                run.goal_id@,
                run_id_of(fresh),
                files_in(res.out_dir@, graph_files()),
                thread_graph_evidence(res, run_id@, user_id@, run.bits.m > 0),
                rf,
            )
        },
        (GoalKind::GraphsReceipts, Step::ReceiptsGraph { run_id, .. }, Outcome::ReceiptsGraph(res)) => {
            ended(r) matches Some(rf) && plainly_finished(
                settled(run.bits, 200_000, 0, 950_000),
                run.goal_id@,
                run_id_of(fresh),
                files_in(res.out_dir@, graph_files()),
                graph_evidence(
                    "graphs.receipts"@,
                    run_id@,
                    res.out_dir@,
                    res.nodes,
                    res.edges,
                    run.bits.m > 0,
                ),
                rf,
            )
        },
        (GoalKind::GraphsApi, Step::ApiGraph { run_id, .. }, Outcome::ApiGraph(res)) => {
            ended(r) matches Some(rf) && plainly_finished(
                settled(run.bits, 200_000, 0, 950_000),
                run.goal_id@,
                run_id_of(fresh),
                files_in(res.out_dir@, graph_files()),
                graph_evidence(
                    "graphs.api"@,
                    run_id@,
                    res.out_dir@,
                    res.nodes,
                    res.edges,
                    run.bits.m > 0,
                ),
                rf,
            )
        },
        (GoalKind::ThreadsReport, Step::ThreadReport { run_id, opts }, Outcome::ThreadReport(res)) => {
            ended(r) matches Some(rf) && plainly_finished(
                settled(run.bits, 200_000, 0, 950_000),
                run.goal_id@,
                run_id_of(fresh),
                files_in(res.out_dir@, report_files()),
                thread_report_evidence(res, run_id@, opts.user_id@, run.bits.m > 0),
                rf,
            )
        },
        (GoalKind::FileWrite, Step::WriteFile { path, content }, Outcome::Written) => {
            ended(r) matches Some(rf) && plainly_finished(
                settled(run.bits, 100_000, 0, 1_000_000),
                run.goal_id@,
                run_id_of(fresh),
                seq![path@],
                write_evidence(path@, content@, run.bits.m > 0),
                rf,
            )
        },
        (GoalKind::MetaOmni, Step::Converse, Outcome::Conversed(answer)) => match r {
            Err(msg) => plainly_finished(
                conversed_bits(run.bits, answer@),
                run.goal_id@,
                run_id_of(fresh),
                Seq::<Seq<char>>::empty(),
                conversed_evidence(answer@),
                Err(msg),
            ),
            Ok(Next::Done(_)) => false,
            Ok(Next::More(next)) => {
                &&& next.goal_id@ == run.goal_id@
                &&& next.kind == run.kind
                &&& next.bits == conversed_bits(run.bits, answer@)
                &&& next.step matches Step::Execute { command } && command@ == echo_of(
                    reply_of(answer@),
                )
                &&& next.closing matches Some(f) && plainly_finished(
                    conversed_bits(run.bits, answer@),
                    run.goal_id@,
                    run_id_of(fresh),
                    Seq::<Seq<char>>::empty(),
                    conversed_evidence(answer@),
                    Ok(f),
                )
            },
        },
        _ => fails_with(r, unexpected()),
    }
}

/// The error of a step that failed for the reason `cause`: a failed read
/// names the file, any other failure is handed on as it came.
pub open spec fn failure(run: Run, cause: Seq<char>) -> Seq<char> {
    match (run.kind, run.step) {
        (GoalKind::ResearchRead, Step::ReadFile { path }) => if run.closing is None {
            read_failure(path@, cause)
        } else {
            cause
        },
        _ => cause,
    }
}

/// The working bits with the same nine scalars as the surfaced bits `b`.
pub open spec fn extended(b: Bits) -> ExtendedBits {
    ExtendedBits { a: b.a, u: b.u, p: b.p, e: b.e, d: b.d, i: b.i, r: b.r, t: b.t, m: b.m }
}

/// The error of a result whose bits, or the bits of whose manifest, are not
/// complete; nothing where both are.
pub open spec fn unsound(f: Finished) -> Option<Seq<char>> {
    if !f.bits.complete() {
        Some(contract_violation(f.bits))
    } else if !extended(f.manifest.bits).complete() {
        Some(contract_violation(extended(f.manifest.bits)))
    } else {
        None
    }
}

/// Validates both bit vectors of a result.
pub fn check_sound(control: &KernelLoop, f: &Finished) -> (r: Result<(), String>)
    ensures
        match r {
            Ok(()) => unsound(*f) is None,
            Err(msg) => unsound(*f) == Some(msg@),
        },
{
    match check_complete(control, &f.bits) {
        Err(e) => Err(e),
        Ok(()) => {
            let b = &f.manifest.bits;
            let lifted = ExtendedBits {
                a: b.a,
                u: b.u,
                p: b.p,
                e: b.e,
                d: b.d,
                i: b.i,
                r: b.r,
                t: b.t,
                m: b.m,
            };
            check_complete(control, &lifted)
        },
    }
}

/// `r` is how the last step of a run ends it with the result `f` that was
/// ready: a build is traced once its log is written, a conversation ends
/// once its reply is echoed.
pub open spec fn closed(
    k0: Kernel,
    k1: Kernel,
    run: Run,
    f: Finished,
    outcome: Outcome,
    r: Result<Next, String>,
) -> bool {
    match (run.kind, run.step, outcome) {
        (GoalKind::Meta3Build, Step::WriteFile { .. }, Outcome::Written) => match unsound(f) {
            None => {
                &&& r == Ok::<Next, String>(Next::Done(f))
                &&& k1.control == k0.control
                &&& k1.kpi_history == k0.kpi_history
                &&& k1.align_boost == k0.align_boost
                &&& k1.trace_history@ == bounded(k0.trace_history@.push(f.bits))
            },
            Some(msg) => k1 == k0 && fails_with(r, msg),
        },
        (GoalKind::MetaOmni, Step::Execute { .. }, Outcome::Executed(_)) => match unsound(f) {
            None => k1 == k0 && r == Ok::<Next, String>(Next::Done(f)),
            Some(msg) => k1 == k0 && fails_with(r, msg),
        },
        (GoalKind::Ruliad, Step::Ruliad { .. }, Outcome::Written) => match unsound(f) {
            None => k1 == k0 && r == Ok::<Next, String>(Next::Done(f)),
            Some(msg) => k1 == k0 && fails_with(r, msg),
        },
        _ => k1 == k0 && fails_with(r, unexpected()),
    }
}

/// `r` is how the run `run` goes on after `outcome`, the kernel going from
/// `k0` to `k1`. `fresh` is a fresh unique identifier, from which a run that
/// ends here takes its identifier.
///
/// A failed step fails the run. An outcome that does not answer the step
/// that was asked for fails it too. Every other outcome either ends the run
/// as the behavior of its goal says, or asks for the one step that the
/// behavior still needs.
pub open spec fn advanced(
    k0: Kernel,
    k1: Kernel,
    run: Run,
    inputs: JsonView,
    outcome: Outcome,
    fresh: Seq<char>,
    r: Result<Next, String>,
) -> bool {
    match outcome {
        Outcome::Failed(cause) => {
            &&& kernel_with_boost(
                k0,
                k1,
                if run.closing is None {
                    boost_after(run.kind, k0.align_boost)
                } else {
                    k0.align_boost
                },
            )
            &&& fails_with(r, failure(run, cause@))
        },
        _ => match run.closing {
            Some(f) => closed(k0, k1, run, f, outcome, r),
            None => match outcome {
                Outcome::Executed(res) => executed(k0, k1, run, res, fresh, r),
                _ => k1 == k0 && delivered(run, inputs, outcome, fresh, r),
            },
        },
    }
}

/// Takes a run one step on: `outcome` is what came of the step that the run
/// asked for, `inputs` the input that the run was started with, `fresh_id` a
/// fresh unique identifier.
pub fn advance_with(
    kernel: &mut Kernel,
    run: Run,
    inputs: &Json,
    outcome: Outcome,
    fresh_id: &str,
) -> (r: Result<Next, String>)
    requires
        old(kernel).wf(),
    ensures
        final(kernel).wf(),
        advanced(*old(kernel), *final(kernel), run, inputs@, outcome, fresh_id@, r),
{
    let Run { goal_id, kind, bits, step, closing, needs_verification } = run;
    match outcome {
        Outcome::Failed(cause) => {
            match closing {
                None => {
                    match kind {
                        GoalKind::AlignSota => {
                            kernel.align_boost = 100_000;
                        },
                        _ => {},
                    }
                    match (kind, step) {
                        (GoalKind::ResearchRead, Step::ReadFile { path }) => Err(
                            concat3(
                                concat("read failed for ", path.as_str()).as_str(),
                                ": ",
                                cause.as_str(),
                            ),
                        ),
                        _ => Err(cause),
                    }
                },
                Some(_) => Err(cause),
            }
        },
        Outcome::Executed(res) => match closing {
            Some(f) => match (kind, step) {
                (GoalKind::MetaOmni, Step::Execute { .. }) => match check_sound(
                    &kernel.control,
                    &f,
                ) {
                    Err(e) => Err(e),
                    Ok(()) => Ok(Next::Done(f)),
                },
                _ => Err("unexpected outcome".to_owned()),
            },
            None => match (kind, step) {
                (GoalKind::AlignSota, Step::Execute { .. }) => {
                    kernel.align_boost = 100_000;
                    match finish_align(&kernel.control, bits, goal_id, res, fresh_id) {
                        Ok(f) => Ok(Next::Done(f)),
                        Err(e) => Err(e),
                    }
                },
                (GoalKind::ShellExec, Step::Execute { command }) => {
                    match finish_shell(
                        &kernel.control,
                        bits,
                        goal_id,
                        command.as_str(),
                        res,
                        fresh_id,
                    ) {
                        Ok(f) => Ok(Next::Done(f)),
                        Err(e) => Err(e),
                    }
                },
                (GoalKind::Generic, Step::Execute { command }) => {
                    let again = Run {
                        goal_id,
                        kind,
                        bits,
                        step: Step::Execute { command },
                        closing: None,
                        needs_verification,
                    };
                    match finish_generic(kernel, again, res, fresh_id) {
                        Ok(f) => Ok(Next::Done(f)),
                        Err(e) => Err(e),
                    }
                },
                (
                    GoalKind::Meta3Build,
                    Step::Build { repo, build_cmd, log_path, run_id, command, log_dir },
                ) => {
                    let goal = goal_id.clone();
                    match settle_build(
                        &kernel.control,
                        bits,
                        goal_id,
                        repo.as_str(),
                        build_cmd.as_str(),
                        log_path.as_str(),
                        run_id.as_str(),
                        res,
                    ) {
                        Ok((f, log)) => Ok(
                            Next::More(
                                Run {
                                    goal_id: goal,
                                    kind,
                                    bits: f.bits,
                                    step: Step::WriteFile { path: log_path, content: log },
                                    closing: Some(f),
                                    needs_verification,
                                },
                            ),
                        ),
                        Err(e) => Err(e),
                    }
                },
                _ => Err("unexpected outcome".to_owned()),
            },
        },
        Outcome::Written => match closing {
            Some(f) => match (kind, step) {
                (GoalKind::Meta3Build, Step::WriteFile { .. }) => {
                    match check_sound(&kernel.control, &f) {
                        Err(e) => Err(e),
                        Ok(()) => {
                            kernel.record_trace(f.bits);
                            Ok(Next::Done(f))
                        },
                    }
                },
                (GoalKind::Ruliad, Step::Ruliad { .. }) => match check_sound(&kernel.control, &f) {
                    Err(e) => Err(e),
                    Ok(()) => Ok(Next::Done(f)),
                },
                _ => Err("unexpected outcome".to_owned()),
            },
            None => match (kind, step) {
                (GoalKind::FileWrite, Step::WriteFile { path, content }) => {
                    match finish_write(
                        &kernel.control,
                        bits,
                        goal_id,
                        path.as_str(),
                        content.as_str(),
                        fresh_id,
                    ) {
                        Ok(f) => Ok(Next::Done(f)),
                        Err(e) => Err(e),
                    }
                },
                _ => Err("unexpected outcome".to_owned()),
            },
        },
        Outcome::FileRead { content, mtime } => match (closing, kind, step) {
            (None, GoalKind::ResearchRead, Step::ReadFile { path }) => {
                match finish_read(
                    &kernel.control,
                    bits,
                    goal_id,
                    inputs,
                    path.as_str(),
                    content.as_str(),
                    mtime,
                    fresh_id,
                ) {
                    Ok(f) => Ok(Next::Done(f)),
                    Err(e) => Err(e),
                }
            },
            _ => Err("unexpected outcome".to_owned()),
        },
        Outcome::Wiki(res) => match (closing, kind, step) {
            (None, GoalKind::WikiGenerate, Step::Wiki { run_id }) => {
                match finish_wiki(&kernel.control, bits, goal_id, run_id.as_str(), res, fresh_id) {
                    Ok(f) => Ok(Next::Done(f)),
                    Err(e) => Err(e),
                }
            },
            _ => Err("unexpected outcome".to_owned()),
        },
        Outcome::ThreadGraph(res) => match (closing, kind, step) {
            (None, GoalKind::GraphsThread, Step::ThreadGraph { run_id, user_id, .. }) => {
                match finish_thread_graph(
                    &kernel.control,
                    bits,
                    goal_id,
                    run_id.as_str(),
                    user_id.as_str(),
                    res,
                    fresh_id,
                ) {
                    Ok(f) => Ok(Next::Done(f)),
                    Err(e) => Err(e),
                }
            },
            _ => Err("unexpected outcome".to_owned()),
        },
        Outcome::ReceiptsGraph(res) => match (closing, kind, step) {
            (None, GoalKind::GraphsReceipts, Step::ReceiptsGraph { run_id, .. }) => {
                match finish_graph(
                    &kernel.control,
                    bits,
                    goal_id,
                    "graphs.receipts",
                    run_id.as_str(),
                    res.out_dir.as_str(),
                    res.nodes,
                    res.edges,
                    fresh_id,
                ) {
                    Ok(f) => Ok(Next::Done(f)),
                    Err(e) => Err(e),
                }
            },
            _ => Err("unexpected outcome".to_owned()),
        },
        Outcome::ApiGraph(res) => match (closing, kind, step) {
            (None, GoalKind::GraphsApi, Step::ApiGraph { run_id, .. }) => {
                match finish_graph(
                    &kernel.control,
                    bits,
                    goal_id,
                    "graphs.api",
                    run_id.as_str(),
                    res.out_dir.as_str(),
                    res.nodes,
                    res.edges,
                    fresh_id,
                ) {
                    Ok(f) => Ok(Next::Done(f)),
                    Err(e) => Err(e),
                }
            },
            _ => Err("unexpected outcome".to_owned()),
        },
        Outcome::ThreadReport(res) => match (closing, kind, step) {
            (None, GoalKind::ThreadsReport, Step::ThreadReport { run_id, opts }) => {
                match finish_thread_report(
                    &kernel.control,
                    bits,
                    goal_id,
                    run_id.as_str(),
                    opts.user_id.as_str(),
                    res,
                    fresh_id,
                ) {
                    Ok(f) => Ok(Next::Done(f)),
                    Err(e) => Err(e),
                }
            },
            _ => Err("unexpected outcome".to_owned()),
        },
        Outcome::Conversed(answer) => match (closing, kind, step) {
            (None, GoalKind::MetaOmni, Step::Converse) => {
                let goal = goal_id.clone();
                match settle_conversation(&kernel.control, bits, goal_id, &answer, fresh_id) {
                    Ok((f, command)) => Ok(
                        Next::More(
                            Run {
                                goal_id: goal,
                                kind,
                                bits: f.bits,
                                step: Step::Execute { command },
                                closing: Some(f),
                                needs_verification,
                            },
                        ),
                    ),
                    Err(e) => Err(e),
                }
            },
            _ => Err("unexpected outcome".to_owned()),
        },
    }
}

/// Starts a run now: reads the clock, draws a fresh identifier, and starts
/// the run with them as `start_at` does.
pub fn start(kernel: &Kernel, goal_id: &str, inputs: &Json, env: &Surroundings) -> (r: Result<
    Next,
    String,
>)
    ensures
        exists|now: (i64, u32), fresh: Seq<char>|
            hyphenated(fresh) && #[trigger] started(
                kernel.control,
                goal_id@,
                inputs@,
                *env,
                now,
                fresh,
                r,
            ),
{
    let moment = clock_now();
    let fresh = fresh_uuid();
    let r = start_at(
        &kernel.control,
        goal_id,
        inputs,
        env,
        (moment.secs, moment.nanos),
        fresh.as_str(),
    );
    assert(started(
        kernel.control,
        goal_id@,
        inputs@,
        *env,
        (moment.secs, moment.nanos),
        fresh@,
        r,
    ));
    r
}

/// Takes a run one step on: draws a fresh identifier and goes on with it as
/// `advance_with` does.
pub fn advance(kernel: &mut Kernel, run: Run, inputs: &Json, outcome: Outcome) -> (r: Result<
    Next,
    String,
>)
    requires
        old(kernel).wf(),
    ensures
        final(kernel).wf(),
        exists|fresh: Seq<char>|
            hyphenated(fresh) && #[trigger] advanced(
                *old(kernel),
                *final(kernel),
                run,
                inputs@,
                outcome,
                fresh,
                r,
            ),
{
    let fresh = fresh_uuid();
    let r = advance_with(kernel, run, inputs, outcome, fresh.as_str());
    assert(advanced(*old(kernel), *kernel, run, inputs@, outcome, fresh@, r));
    r
}

/// Every run that ends well ends with complete bits, in its result and in
/// its manifest: each of the nine scalars lies in the unit interval.
pub proof fn law_completed_bits_are_complete(
    k0: Kernel,
    k1: Kernel,
    run: Run,
    inputs: JsonView,
    outcome: Outcome,
    fresh: Seq<char>,
    r: Result<Next, String>,
)
    requires
        advanced(k0, k1, run, inputs, outcome, fresh, r),
    ensures
        r matches Ok(Next::Done(f)) ==> f.bits.complete() && extended(f.manifest.bits).complete(),
{
}

/// A run that ends from its own steps hands out its own bits: the bits of
/// its manifest are the bits of its result. This holds of every run whose
/// result was not made ready before its last step.
pub proof fn law_manifest_carries_the_bits(
    k0: Kernel,
    k1: Kernel,
    run: Run,
    inputs: JsonView,
    outcome: Outcome,
    fresh: Seq<char>,
    r: Result<Next, String>,
)
    requires
        advanced(k0, k1, run, inputs, outcome, fresh, r),
        run.closing is None,
    ensures
        r matches Ok(Next::Done(f)) ==> f.manifest.bits == surfaced(f.bits),
{
}

/// An action whose context is stale is not run and does not fail: it ends
/// at once with a request for clarification, with complete bits that its
/// manifest carries, and without a proposal.
pub proof fn law_stale_action_is_asked_to_clarify(
    control: KernelLoop,
    goal: Seq<char>,
    inputs: JsonView,
    env: Surroundings,
    now: (i64, u32),
    fresh: Seq<char>,
    r: Result<Next, String>,
)
    requires
        started(control, goal, inputs, env, now, fresh, r),
        context_stale(inputs, now),
        is_action(goal),
    ensures
        r matches Ok(Next::Done(f)) && {
            &&& views(f.manifest.deliverables@) == seq!["clarification_required"@]
            &&& f.manifest.goal_id@ == goal
            &&& f.manifest.bits == surfaced(f.bits)
            &&& f.bits.complete()
            &&& f.bits.d == 1_000_000
            &&& f.proposal is None
        },
{
}

/// A goal that is no action does not start with a stale context: the
/// admission gate is closed, and the run fails with its message.
pub proof fn law_stale_context_closes_the_start(
    control: KernelLoop,
    goal: Seq<char>,
    inputs: JsonView,
    env: Surroundings,
    now: (i64, u32),
    fresh: Seq<char>,
    r: Result<Next, String>,
)
    requires
        started(control, goal, inputs, env, now, fresh, r),
        context_stale(inputs, now),
        !is_action(goal),
    ensures
        r matches Err(msg) && msg@ == gate_closed(),
{
}

} // verus!
