use one_engine::engine::executor::{
    admit_command, conclude, conclude_text, detect_capability, Ending, ExecResult,
};
use one_engine::engine::kernel::{ExtendedBits, KernelLoop};
use one_engine::engine::run::{
    advance, advance_with, start, start_at, Next, Outcome, Run, Step, Surroundings,
};
use one_engine::engine::types::Policy;
use one_engine::engine::verify::check_minimal;
use one_engine::engine::wiki::WikiResult;
use one_engine::engine::{
    build_cmd_from_policies, classify, contains_global_install, initial_uncertainty,
    is_context_stale, GoalKind, Kernel,
};
use one_engine::json::Json;

const ONE: i64 = 1_000_000;

fn obj(entries: Vec<(&str, Json)>) -> Json {
    Json::Object(entries.into_iter().map(|(k, v)| (k.to_string(), v)).collect())
}

fn text(s: &str) -> Json {
    Json::Text(s.to_string())
}

fn no_env() -> Surroundings {
    Surroundings {
        meta3_root: None,
        meta3_path: None,
        build_default_cmd: None,
        policy_default_cmd: None,
        policy_forbid_global_installs: None,
    }
}

fn ok_result(stdout: &str) -> ExecResult {
    ExecResult { ok: true, drift: false, stdout: stdout.to_string(), stderr: String::new() }
}

fn failed_result() -> ExecResult {
    ExecResult { ok: false, drift: false, stdout: String::new(), stderr: "boom".to_string() }
}

fn waiting(next: Result<Next, String>) -> Run {
    match next {
        Ok(Next::More(run)) => run,
        Ok(Next::Done(_)) => panic!("the run was expected to wait for a step"),
        Err(e) => panic!("the run did not start: {}", e),
    }
}

fn begin(goal: &str, inputs: &Json) -> Run {
    let k = KernelLoop::new();
    waiting(start_at(&k, goal, inputs, &no_env(), (1_700_000_000, 0), "id"))
}

fn command_of(run: &Run) -> String {
    match &run.step {
        Step::Execute { command } => command.clone(),
        other => panic!("an execute step was expected, not {:?}", other),
    }
}

fn done(next: Result<Next, String>) -> one_engine::engine::run::Finished {
    match next {
        Ok(Next::Done(f)) => f,
        Ok(Next::More(_)) => panic!("the run was expected to end"),
        Err(e) => panic!("the run failed: {}", e),
    }
}

#[test]
fn goals_resolve_to_behaviors_in_order() {
    assert_eq!(classify("demo.ping"), GoalKind::Generic);
    assert_eq!(classify("user:demo.align.sota"), GoalKind::AlignSota);
    assert_eq!(classify("research.read"), GoalKind::ResearchRead);
    assert_eq!(classify("wiki.generate"), GoalKind::WikiGenerate);
    assert_eq!(classify("graph.thread"), GoalKind::GraphsThread);
    assert_eq!(classify("graphs.thread"), GoalKind::GraphsThread);
    assert_eq!(classify("graphs.receipts"), GoalKind::GraphsReceipts);
    assert_eq!(classify("graph.api"), GoalKind::GraphsApi);
    assert_eq!(classify("meta3.build"), GoalKind::Meta3Build);
    assert_eq!(classify("ruliad.kernel"), GoalKind::Ruliad);
    assert_eq!(classify("thread.report"), GoalKind::ThreadsReport);
    assert_eq!(classify("shell.exec"), GoalKind::ShellExec);
    assert_eq!(classify("file.write"), GoalKind::FileWrite);
    assert_eq!(classify("meta.omni"), GoalKind::MetaOmni);
    // the earlier marker decides
    assert_eq!(classify("shell.exec.file.write"), GoalKind::ShellExec);
    assert_eq!(classify("wiki.generate.align.sota"), GoalKind::AlignSota);
}

#[test]
fn uncertainty_follows_the_claimed_difficulty() {
    assert_eq!(initial_uncertainty("easy.echo1"), 100_000);
    assert_eq!(initial_uncertainty("hard.delay1"), 700_000);
    assert_eq!(initial_uncertainty("impossible.fail1"), 900_000);
    assert_eq!(initial_uncertainty("demo.ping"), 300_000);
    assert_eq!(initial_uncertainty("easy.hard"), 100_000);
}

#[test]
fn capabilities_are_detected_without_regard_to_case() {
    assert_eq!(detect_capability("CURL http://x"), Some("network"));
    assert_eq!(detect_capability("wget x"), Some("network"));
    assert_eq!(detect_capability("sudo rm -rf /"), Some("file_write"));
    assert_eq!(detect_capability("cp a b; mv a b"), Some("file_write"));
    assert_eq!(detect_capability("git push origin"), Some("identity"));
    assert_eq!(detect_capability("GH Release create"), Some("identity"));
    assert_eq!(detect_capability("echo hello"), None);
    // network comes first
    assert_eq!(detect_capability("curl x && git push"), Some("network"));
}

#[test]
fn strict_mode_blocks_commands_with_a_capability() {
    assert_eq!(admit_command("curl http://x", None), Ok(()));
    assert_eq!(admit_command("curl http://x", Some("0")), Ok(()));
    assert_eq!(admit_command("echo hi", Some("1")), Ok(()));
    assert_eq!(
        admit_command("curl http://x", Some("1")),
        Err("capability gate blocked: network".to_string())
    );
    assert_eq!(
        admit_command("git push", Some("1")),
        Err("capability gate blocked: identity".to_string())
    );
}

#[test]
fn a_command_whose_time_ran_out_has_failed() {
    let policy = Policy { time_ms: 50, ..Policy::default() };
    let r = conclude(Ending::DeadlineExpired, b"partial", b"", &policy);
    assert!(!r.ok);
    assert!(!r.drift);
    assert_eq!(r.stdout, "partial");
    assert_eq!(r.stderr, "timeout after 50ms");
    let r = conclude(Ending::DeadlineExpired, b"", b"warn", &policy);
    assert_eq!(r.stderr, "warn\ntimeout after 50ms");
    assert!(r.stderr.contains("timeout after 50ms"));
}

#[test]
fn a_command_that_ended_reports_its_status() {
    let policy = Policy::default();
    let r = conclude(Ending::Exited { success: true }, b"out\n", b"err", &policy);
    assert!(r.ok);
    assert_eq!(r.stdout, "out\n");
    assert_eq!(r.stderr, "err");
    let r = conclude(Ending::Exited { success: false }, b"", b"", &policy);
    assert!(!r.ok);
    assert_eq!(r.stderr, "");
    // bytes that are no text are replaced, not dropped
    let r = conclude(Ending::Exited { success: true }, &[0x68, 0xff, 0x69], b"", &policy);
    assert_eq!(r.stdout, "h\u{fffd}i");
    let r = conclude_text(Ending::Exited { success: true }, "a".into(), "b".into(), &policy);
    assert_eq!((r.stdout.as_str(), r.stderr.as_str()), ("a", "b"));
}

#[test]
fn minimal_verification() {
    assert!(check_minimal(&ok_result("hello\n")));
    assert!(!check_minimal(&ok_result("")));
    assert!(!check_minimal(&ok_result(" \n\t")));
    assert!(!check_minimal(&ExecResult {
        ok: false,
        drift: false,
        stdout: "hello".into(),
        stderr: String::new()
    }));
}

#[test]
fn global_installs_are_recognized() {
    assert!(contains_global_install("NPM install -g turbo"));
    assert!(contains_global_install("x && npm -g ls"));
    assert!(contains_global_install("brew install jq"));
    assert!(contains_global_install("sudo make install"));
    assert!(!contains_global_install("npm install"));
    assert_eq!(build_cmd_from_policies(None, None), None);
    assert_eq!(build_cmd_from_policies(Some("   "), None), None);
    assert_eq!(build_cmd_from_policies(Some(" make \n"), None), Some("make".to_string()));
    assert_eq!(
        build_cmd_from_policies(Some("sudo make"), None),
        Some("echo \"[meta3.build] blocked: global installs/sudo in policy\"; exit 2".to_string())
    );
    assert_eq!(
        build_cmd_from_policies(Some("sudo make"), Some(false)),
        Some("sudo make".to_string())
    );
}

#[test]
fn freshness_of_the_context() {
    let item = |ts: &str, ttl: i64| obj(vec![("ts", text(ts)), ("ttl", Json::Int(ttl))]);
    let inputs = |items: Vec<Json>| obj(vec![("context", Json::List(items))]);
    // 2020-01-01T00:00:00Z is 1577836800
    let then = "2020-01-01T00:00:00Z";
    assert!(!is_context_stale(&inputs(vec![item(then, 10)]), (1_577_836_810, 0)));
    assert!(!is_context_stale(&inputs(vec![item(then, 10)]), (1_577_836_810, 999_999_999)));
    assert!(is_context_stale(&inputs(vec![item(then, 10)]), (1_577_836_811, 0)));
    // an offset is honored
    assert!(is_context_stale(
        &inputs(vec![item("2020-01-01T01:00:00+01:00", 10)]),
        (1_577_836_811, 0)
    ));
    // one expired item is enough
    assert!(is_context_stale(
        &inputs(vec![item(then, 1_000), item(then, 1)]),
        (1_577_836_811, 0)
    ));
    // what cannot be read does not expire
    assert!(!is_context_stale(&inputs(vec![item("yesterday", 0)]), (1_577_836_811, 0)));
    assert!(!is_context_stale(&inputs(vec![obj(vec![("ts", text(then))])]), (1_577_836_811, 0)));
    assert!(!is_context_stale(&obj(vec![]), (1_577_836_811, 0)));
    assert!(!is_context_stale(&obj(vec![("context", text("x"))]), (1_577_836_811, 0)));
    // a time stamp in the future has a negative age
    assert!(!is_context_stale(&inputs(vec![item(then, 0)]), (1_577_836_000, 0)));
    assert!(is_context_stale(&inputs(vec![item(then, -900)]), (1_577_836_000, 0)));
}

#[test]
fn a_stale_context_closes_the_gate() {
    let k = KernelLoop::new();
    let inputs = obj(vec![(
        "context",
        Json::List(vec![obj(vec![
            ("ts", text("2020-01-01T00:00:00Z")),
            ("ttl", Json::Int(60)),
        ])]),
    )]);
    let r = start_at(&k, "demo.ping", &inputs, &no_env(), (1_700_000_000, 0), "id");
    assert_eq!(r.err(), Some("Ask-Act gate failed: A=1, P=1, Δ=1".to_string()));
    let r = start_at(&k, "shell.exec", &inputs, &no_env(), (1_700_000_000, 0), "id");
    assert_eq!(r.err(), Some("Ask-Act gate failed: A=1, P=1, Δ=1".to_string()));
}

#[test]
fn an_action_with_a_stale_context_is_asked_to_clarify() {
    let k = KernelLoop::new();
    let inputs = obj(vec![(
        "context",
        Json::List(vec![obj(vec![
            ("ts", text("2000-01-01T00:00:00Z")),
            ("ttl", Json::Int(60)),
        ])]),
    )]);
    for goal in ["deploy.action", "execute.plan", "hard.action", "shell.exec.action"] {
        let f = done(start_at(&k, goal, &inputs, &no_env(), (1_700_000_000, 0), "fresh-id"));
        assert_eq!(f.manifest.deliverables, ["clarification_required"]);
        assert_eq!(f.manifest.goal_id, goal);
        assert_eq!(f.manifest.run_id, "fresh-id");
        assert_eq!(
            f.manifest.evidence.get("stdout").and_then(|v| v.as_str()),
            Some("Ask-Act gate: Ask-Act gate failed: A=1.0, P=1.0, Δ=1.0. Need P=1, A=1, Δ=0")
        );
        assert_eq!(f.manifest.evidence.get("stderr").and_then(|v| v.as_str()), Some(""));
        assert_eq!(
            f.manifest.evidence.get("files").and_then(|v| v.as_array()).map(|a| a.len()),
            Some(0)
        );
        assert_eq!(f.bits.d, 1_000_000);
        assert_eq!((f.bits.a, f.bits.p, f.bits.t, f.bits.e), (1_000_000, 1_000_000, 500_000, 0));
        assert_eq!(f.manifest.bits, one_engine::engine::types::Bits::from(f.bits));
        assert!(f.proposal.is_none());
    }
    let hard = done(start_at(&k, "hard.action", &inputs, &no_env(), (1_700_000_000, 0), "x"));
    assert_eq!(hard.bits.u, 700_000);
    // with a fresh context the same goal waits for its command
    let fresh = obj(vec![]);
    let run = waiting(start_at(&k, "deploy.action", &fresh, &no_env(), (1_700_000_000, 0), "x"));
    assert_eq!(command_of(&run), "echo 'hello from one-engine'");
}

#[test]
fn missing_fields_fail_the_start() {
    let k = KernelLoop::new();
    let none = obj(vec![]);
    let now = (1_700_000_000, 0);
    let err = |goal: &str, inputs: &Json| start_at(&k, goal, inputs, &no_env(), now, "id").err();
    assert_eq!(err("research.read", &none), Some("path or context_path is required".to_string()));
    assert_eq!(err("shell.exec", &none), Some("cmd is required".to_string()));
    assert_eq!(err("file.write", &none), Some("path required".to_string()));
    assert_eq!(
        err("file.write", &obj(vec![("path", text("a.txt"))])),
        Some("content required".to_string())
    );
    // a path that is no text is not replaced by the context path
    assert_eq!(
        err(
            "research.read",
            &obj(vec![("path", Json::Int(1)), ("context_path", text("a.md"))])
        ),
        Some("path or context_path is required".to_string())
    );
    assert_eq!(err("demo.ping", &none), None);
}

#[test]
fn first_steps_of_command_goals() {
    let none = obj(vec![]);
    assert_eq!(command_of(&begin("demo.ping", &none)), "echo 'hello from one-engine'");
    assert_eq!(
        command_of(&begin("demo.ping", &obj(vec![("message", text("hi"))]))),
        "echo hi"
    );
    assert_eq!(
        command_of(&begin("hard.delay1", &obj(vec![("message", text("it's"))]))),
        "sleep 0.1 && echo 'it'\\''s'"
    );
    assert_eq!(
        command_of(&begin("demo.ping", &obj(vec![("message", text(""))]))),
        "echo ''"
    );
    assert_eq!(
        command_of(&begin("demo.ping", &obj(vec![("message", text("Az09-_=/,.+"))]))),
        "echo Az09-_=/,.+"
    );
    assert_eq!(
        command_of(&begin("demo.ping", &obj(vec![("message", text("hi!"))]))),
        "echo 'hi'\\!''"
    );
    assert_eq!(
        command_of(&begin("demo.ping", &obj(vec![("message", text("a b:c"))]))),
        "echo 'a b:c'"
    );
    assert_eq!(
        command_of(&begin("demo.ping", &obj(vec![("message", text("'!"))]))),
        "echo ''\\'''\\!''"
    );
    assert_eq!(command_of(&begin("impossible.fail1", &none)), "false");
    assert_eq!(command_of(&begin("align.sota", &none)), "echo align.sota");
    assert_eq!(
        command_of(&begin("shell.exec", &obj(vec![("cmd", text("ls -l"))]))),
        "ls -l"
    );
    let run = begin("hard.delay1", &none);
    assert_eq!(run.bits.u, 700_000);
    assert!(run.needs_verification);
    assert!(!begin("demo.ping", &none).needs_verification);
}

#[test]
fn first_step_of_a_build() {
    let k = KernelLoop::new();
    let env = Surroundings {
        meta3_root: Some("/srv".to_string()),
        meta3_path: Some("/src/mono repo".to_string()),
        build_default_cmd: None,
        policy_default_cmd: Some(" make all ".to_string()),
        policy_forbid_global_installs: None,
    };
    let run = waiting(start_at(&k, "meta3.build", &obj(vec![]), &env, (0, 0), "abc"));
    match run.step {
        Step::Build { command, log_dir, log_path, repo, build_cmd, run_id } => {
            assert_eq!(repo, "/src/mono repo");
            assert_eq!(build_cmd, "make all");
            assert_eq!(run_id, "r-abc");
            assert_eq!(log_dir, "/srv/runs/meta3-build");
            assert_eq!(log_path, "/srv/runs/meta3-build/r-abc.log");
            assert_eq!(command, "cd '/src/mono repo' && make all 2>&1");
        }
        other => panic!("a build step was expected, not {:?}", other),
    }
}

#[test]
fn a_passing_command_earns_full_trust() {
    let mut k = Kernel::new();
    let inputs = obj(vec![]);
    let run = begin("demo.ping", &inputs);
    let f = done(advance_with(&mut k, run, &inputs, Outcome::Executed(ok_result("hi\n")), "u1"));
    assert_eq!(f.bits.t, 900_000);
    assert_eq!(f.bits.u, 300_000);
    assert_eq!(f.bits.e, 0);
    assert_eq!(f.bits.m, 0);
    assert_eq!(f.manifest.run_id, "r-u1");
    assert_eq!(f.manifest.goal_id, "demo.ping");
    assert!(f.manifest.deliverables.is_empty());
    assert_eq!(f.manifest.bits.t, 900_000);
    assert!(f.proposal.is_none());
    assert_eq!(k.kpi_history, vec![900_000]);
    assert_eq!(k.trace_history.len(), 1);
    assert_eq!(f.manifest.evidence.get("stdout").and_then(|v| v.as_str()), Some("hi\n"));
    assert_eq!(f.manifest.evidence.bool_at("actual_success"), Some(true));
    assert_eq!(f.manifest.evidence.bool_at("expected_success"), Some(true));
    assert_eq!(f.manifest.evidence.bool_at("meta2_triggered"), Some(false));
    let l2 = f.manifest.evidence.get("l2_params").expect("the control parameters");
    assert_eq!(l2.level_at("confidence_gate_tau"), Some(700_000));
    assert_eq!(l2.u64_at("backoff_k"), Some(3));
}

#[test]
fn a_failing_command_is_absorbed_into_the_bits() {
    let mut k = Kernel::new();
    let inputs = obj(vec![]);
    let run = begin("demo.ping", &inputs);
    let f = done(advance_with(&mut k, run, &inputs, Outcome::Executed(failed_result()), "u2"));
    // expected to succeed, and did not: three tenths times seven tenths
    assert_eq!(f.bits.t, 210_000);
    assert_eq!(f.bits.e, ONE);
    assert_eq!(f.bits.u, 500_000);
    assert_eq!(f.manifest.evidence.bool_at("actual_success"), Some(false));
}

#[test]
fn an_impossible_goal_that_fails_is_not_penalized() {
    let mut k = Kernel::new();
    let inputs = obj(vec![]);
    let run = begin("impossible.fail1", &inputs);
    let f = done(advance_with(&mut k, run, &inputs, Outcome::Executed(failed_result()), "u3"));
    assert_eq!(f.bits.t, 300_000);
    assert_eq!(f.bits.u, ONE);
    assert_eq!(f.manifest.evidence.bool_at("expected_success"), Some(false));
}

#[test]
fn an_impossible_goal_that_passes_is_penalized() {
    let mut k = Kernel::new();
    let inputs = obj(vec![]);
    let run = begin("impossible.fail1", &inputs);
    let f = done(advance_with(&mut k, run, &inputs, Outcome::Executed(ok_result("x")), "u3"));
    assert_eq!(f.bits.t, 630_000);
}

#[test]
fn two_step_degradation_wakes_the_slow_loop() {
    let mut k = Kernel::new();
    let inputs = obj(vec![]);
    // 0.9, then 0.21: no trend yet
    let run = begin("demo.a", &inputs);
    done(advance_with(&mut k, run, &inputs, Outcome::Executed(ok_result("x")), "1"));
    let run = begin("demo.b", &inputs);
    let f = done(advance_with(&mut k, run, &inputs, Outcome::Executed(failed_result()), "2"));
    assert_eq!(f.bits.m, 0);
    // 0.21, 0.9, 0.63: the middle lies above the last, the last above the first
    let run = begin("demo.c", &inputs);
    done(advance_with(&mut k, run, &inputs, Outcome::Executed(ok_result("x")), "3"));
    let run = begin("impossible.d", &inputs);
    let f = done(advance_with(&mut k, run, &inputs, Outcome::Executed(ok_result("x")), "4"));
    assert_eq!(k.kpi_history, vec![900_000, 210_000, 900_000, 630_000]);
    assert_eq!(f.bits.m, ONE);
    assert_eq!(f.manifest.evidence.bool_at("meta2_triggered"), Some(true));
    let p = f.proposal.expect("a proposal");
    assert_eq!(p.symptom, "evidence_coverage fell to 0.630");
}

#[test]
fn histories_keep_the_latest_hundred() {
    let mut k = Kernel::new();
    for i in 0..150 {
        k.record_kpi(i);
    }
    assert_eq!(k.kpi_history.len(), 100);
    assert_eq!(k.kpi_history[0], 50);
    assert_eq!(k.kpi_history[99], 149);
    let mut b = ExtendedBits::init();
    for i in 0..120 {
        b.i = i;
        k.record_trace(b);
    }
    assert_eq!(k.trace_history.len(), 100);
    assert_eq!(k.trace_history[0].i, 20);
    assert_eq!(k.trace_history[99].i, 119);
}

#[test]
fn bits_out_of_range_are_a_fatal_error() {
    let mut k = Kernel::new();
    let inputs = obj(vec![]);
    let mut run = begin("demo.ping", &inputs);
    run.bits.r = 2 * ONE;
    let r = advance_with(&mut k, run, &inputs, Outcome::Executed(ok_result("x")), "u");
    match r {
        Err(e) => assert_eq!(e, "Kernel contract violation: Invalid bit R: 2.000"),
        Ok(_) => panic!("the run was expected to fail"),
    }
    assert!(k.trace_history.is_empty());
}

#[test]
fn a_blocked_action_asks_for_clarification() {
    let mut k = Kernel::new();
    let inputs = obj(vec![]);
    let mut run = begin("demo.action", &inputs);
    run.bits.p = 0;
    let f = done(advance_with(&mut k, run, &inputs, Outcome::Executed(ok_result("x")), "u9"));
    assert_eq!(f.manifest.deliverables, vec!["clarification_required".to_string()]);
    assert_eq!(f.manifest.run_id, "u9");
    assert_eq!(
        f.manifest.evidence.get("stdout").and_then(|v| v.as_str()),
        Some("Ask-Act gate: Ask-Act gate failed: A=1.0, P=0.0, Δ=0.0. Need P=1, A=1, Δ=0")
    );
    assert!(f.proposal.is_none());
    assert!(k.trace_history.is_empty());
    // a goal that is no action goes on
    let mut run = begin("demo.ping", &inputs);
    run.bits.p = 0;
    let f = done(advance_with(&mut k, run, &inputs, Outcome::Executed(ok_result("x")), "u9"));
    assert!(f.manifest.deliverables.is_empty());
}

#[test]
fn a_failed_step_fails_the_run() {
    let mut k = Kernel::new();
    let inputs = obj(vec![]);
    let run = begin("demo.ping", &inputs);
    let r = advance_with(&mut k, run, &inputs, Outcome::Failed("failed to spawn: x".into()), "u");
    assert_eq!(r.err(), Some("failed to spawn: x".to_string()));
    let inputs = obj(vec![("path", text("/nowhere"))]);
    let run = begin("research.read", &inputs);
    let r = advance_with(&mut k, run, &inputs, Outcome::Failed("gone".into()), "u");
    assert_eq!(r.err(), Some("read failed for /nowhere: gone".to_string()));
}

#[test]
fn an_outcome_that_answers_no_step_fails_the_run() {
    let mut k = Kernel::new();
    let inputs = obj(vec![]);
    let run = begin("demo.ping", &inputs);
    let r = advance_with(&mut k, run, &inputs, Outcome::Written, "u");
    assert_eq!(r.err(), Some("unexpected outcome".to_string()));
}

#[test]
fn shell_runs_settle_by_their_exit() {
    let mut k = Kernel::new();
    let inputs = obj(vec![("cmd", text("ls"))]);
    let run = begin("shell.exec", &inputs);
    let f = done(advance_with(&mut k, run, &inputs, Outcome::Executed(ok_result("a")), "u"));
    assert_eq!((f.bits.u, f.bits.e, f.bits.t), (200_000, 0, 950_000));
    assert_eq!(f.manifest.evidence.bool_at("exit_ok"), Some(true));
    let run = begin("shell.exec", &inputs);
    let f = done(advance_with(&mut k, run, &inputs, Outcome::Executed(failed_result()), "u"));
    assert_eq!((f.bits.u, f.bits.e, f.bits.t), (200_000, ONE, 400_000));
    assert_eq!(f.manifest.evidence.get("stderr").and_then(|v| v.as_str()), Some("boom"));
}

#[test]
fn a_read_is_stale_where_its_digest_differs() {
    let mut k = Kernel::new();
    let abc = "ba7816bf8f01cfea414140de5dae2223b00361a396177a9cb410ff61f20015ad";
    let read = |k: &mut Kernel, inputs: &Json| {
        let run = begin("research.read", inputs);
        done(advance_with(
            k,
            run,
            inputs,
            Outcome::FileRead { content: "abc".to_string(), mtime: 7 },
            "u",
        ))
    };
    let inputs = obj(vec![("path", text("a.txt"))]);
    let f = read(&mut k, &inputs);
    assert_eq!((f.bits.u, f.bits.e, f.bits.t), (200_000, 0, 950_000));
    let ev = &f.manifest.evidence;
    assert_eq!(ev.get("sha256").and_then(|v| v.as_str()), Some(abc));
    assert_eq!(ev.u64_at("lines"), Some(1));
    assert_eq!(ev.u64_at("bytes"), Some(3));
    assert_eq!(ev.i64_at("mtime"), Some(7));
    assert_eq!(ev.bool_at("stale"), Some(false));
    assert_eq!(ev.get("summary").and_then(|v| v.as_str()), Some("lines=1 bytes=3 first_line=abc"));
    assert!(matches!(ev.get("stale_reason"), Some(Json::Null)));
    let inputs = obj(vec![
        ("path", text("a.txt")),
        ("context_manifest", obj(vec![("sha256", text(abc)), ("mtime", Json::Int(7))])),
    ]);
    assert_eq!(read(&mut k, &inputs).bits.t, 950_000);
    let inputs = obj(vec![
        ("path", text("a.txt")),
        ("context_manifest", obj(vec![("sha256", text("0000"))])),
    ]);
    let f = read(&mut k, &inputs);
    assert_eq!(f.bits.t, 400_000);
    assert_eq!(
        f.manifest.evidence.get("stale_reason").and_then(|v| v.as_str()),
        Some("sha256_mismatch")
    );
    assert_eq!(f.manifest.evidence.bool_at("actual_success"), Some(false));
    let inputs = obj(vec![
        ("path", text("a.txt")),
        ("context_manifest", obj(vec![("sha256", text("0000")), ("mtime", Json::Int(8))])),
    ]);
    let f = read(&mut k, &inputs);
    assert_eq!(
        f.manifest.evidence.get("stale_reason").and_then(|v| v.as_str()),
        Some("mtime_mismatch")
    );
}

#[test]
fn a_wiki_run_delivers_its_six_files() {
    let mut k = Kernel::new();
    let inputs = obj(vec![("__run_id", text("w1"))]);
    let run = begin("wiki.generate", &inputs);
    let res = WikiResult {
        out_dir: "./runs/wiki/w1".to_string(),
        files_count: 12,
        topfiles_count: 3,
        readme_copied: true,
    };
    let f = done(advance_with(&mut k, run, &inputs, Outcome::Wiki(res), "u"));
    assert_eq!(f.manifest.deliverables.len(), 6);
    assert_eq!(f.manifest.deliverables[0], "./runs/wiki/w1/index.html");
    assert_eq!(f.manifest.deliverables[5], "./runs/wiki/w1/folder_summary.md");
    assert_eq!(
        f.manifest.evidence.get("stdout").and_then(|v| v.as_str()),
        Some("[wiki.generate] wrote ./runs/wiki/w1 (12 files, 3 topfiles)")
    );
    assert_eq!(
        f.manifest.evidence.get("index_html_url").and_then(|v| v.as_str()),
        Some("/runs/wiki/w1/index.html")
    );
    assert_eq!((f.bits.u, f.bits.e, f.bits.t), (200_000, 0, 950_000));
}

#[test]
fn a_build_is_traced_once_its_log_is_written() {
    let mut k = Kernel::new();
    let inputs = obj(vec![("build_cmd", text("make")), ("repo_path", text("repo"))]);
    let run = begin("meta3.build", &inputs);
    let res = ExecResult {
        ok: false,
        drift: false,
        stdout: "out".to_string(),
        stderr: "err".to_string(),
    };
    let next = advance_with(&mut k, run, &inputs, Outcome::Executed(res), "u");
    let run = match next {
        Ok(Next::More(run)) => run,
        _ => panic!("the log was expected to be written next"),
    };
    match &run.step {
        Step::WriteFile { path, content } => {
            assert_eq!(path, "./runs/meta3-build/r-id.log");
            assert_eq!(content, "STDOUT:\\nout\\nSTDERR:\\nerr");
        }
        other => panic!("a write step was expected, not {:?}", other),
    }
    assert!(k.trace_history.is_empty());
    let f = done(advance_with(&mut k, run, &inputs, Outcome::Written, "u"));
    // failed: three tenths times eight tenths
    assert_eq!(f.bits.t, 240_000);
    assert_eq!(f.bits.e, ONE);
    assert_eq!(f.manifest.run_id, "r-id");
    assert_eq!(f.manifest.deliverables, vec!["./runs/meta3-build/r-id.log".to_string()]);
    assert_eq!(k.trace_history.len(), 1);
    assert!(k.kpi_history.is_empty());
}

#[test]
fn a_conversation_takes_its_bits_from_the_answer() {
    let mut k = Kernel::new();
    let inputs = obj(vec![("message", text("hi"))]);
    let run = begin("meta.omni", &inputs);
    let answer = obj(vec![
        ("reply", text("hello there")),
        ("bits", obj(vec![("U", Json::Real(250_000)), ("E", Json::Int(0)), ("A", Json::Int(1))])),
        ("manifest", obj(vec![("evidence", obj(vec![("reply", text("hello there"))]))])),
    ]);
    let next = advance_with(&mut k, run, &inputs, Outcome::Conversed(answer), "u");
    let run = match next {
        Ok(Next::More(run)) => run,
        _ => panic!("the reply was expected to be echoed next"),
    };
    assert_eq!(command_of(&run), "echo 'hello there'");
    let f = done(advance_with(&mut k, run, &inputs, Outcome::Executed(ok_result("x")), "u"));
    assert_eq!((f.bits.a, f.bits.u, f.bits.e), (ONE, 250_000, 0));
    assert_eq!(f.manifest.evidence.get("reply").and_then(|v| v.as_str()), Some("hello there"));
    // an answer with bits out of range fails the run
    let run = begin("meta.omni", &inputs);
    let answer = obj(vec![("bits", obj(vec![("U", Json::Int(3))]))]);
    let r = advance_with(&mut k, run, &inputs, Outcome::Conversed(answer), "u");
    assert_eq!(r.err(), Some("Kernel contract violation: Invalid bit U: 3.000".to_string()));
}

#[test]
fn an_alignment_run_ends_with_its_boosted_trust() {
    let mut k = Kernel::new();
    let inputs = obj(vec![]);
    let run = begin("align.sota", &inputs);
    let f = done(advance_with(&mut k, run, &inputs, Outcome::Executed(ok_result("x")), "u"));
    assert_eq!(f.manifest.bits.t, 600_000);
    assert_eq!(f.bits.t, 600_000);
    assert_eq!(f.manifest.bits, one_engine::engine::types::Bits::from(f.bits));
    assert_eq!(k.align_boost, 100_000);
    assert_eq!(f.manifest.evidence.level_at("alignment_boost"), Some(100_000));
}

#[test]
fn runs_started_now_get_fresh_identifiers() {
    let mut k = Kernel::new();
    let inputs = obj(vec![]);
    let run = waiting(start(&k, "demo.ping", &inputs, &no_env()));
    let first = done(advance(&mut k, run, &inputs, Outcome::Executed(ok_result("x"))));
    let run = waiting(start(&k, "demo.ping", &inputs, &no_env()));
    let second = done(advance(&mut k, run, &inputs, Outcome::Executed(ok_result("x"))));
    assert_eq!(first.manifest.run_id.len(), 38);
    assert!(first.manifest.run_id.starts_with("r-"));
    assert!(one_engine::api::is_safe_segment(&first.manifest.run_id));
    assert_ne!(first.manifest.run_id, second.manifest.run_id);
}
