//! The values that requests and responses of the front end carry.

use vstd::prelude::*;
use crate::engine::bits::Bits;
use crate::engine::golden::GoldenCase;
use crate::engine::types::{Manifest, Policy};
use crate::json::Json;
use super::UserContext;

verus! {

/// The callers that the kernel knows, each under its user identifier once.
#[derive(Debug)]
pub struct AppState {
    pub users: Vec<UserContext>,
}

/// The policy of the premium demonstration user: a lower threshold, more
/// time and more risk.
pub open spec fn premium_policy() -> Policy {
    Policy { gamma_gate: 300_000, time_ms: 60000, max_risk: 500_000, tiny_diff_loc: 500 }
}

impl Default for AppState {
    /// The callers that are known at startup: the two demonstration users.
    fn default() -> (s: Self)
        ensures
            s.users@.len() == 2,
            s.users@[0].user_id@ == "demo"@,
            s.users@[0].api_key@ == "demo-key-123"@,
            s.users@[0].quota_remaining == 1000,
            s.users@[0].policy_overrides is None,
            s.users@[1].user_id@ == "premium"@,
            s.users@[1].api_key@ == "premium-key-456"@,
            s.users@[1].quota_remaining == 10000,
            s.users@[1].policy_overrides == Some(premium_policy()),
    {
        let mut users: Vec<UserContext> = Vec::new();
        users.push(
            UserContext {
                user_id: "demo".to_owned(),
                api_key: "demo-key-123".to_owned(),
                quota_remaining: 1000,
                policy_overrides: None,
            },
        );
        users.push(
            UserContext {
                user_id: "premium".to_owned(),
                api_key: "premium-key-456".to_owned(),
                quota_remaining: 10000,
                policy_overrides: Some(
                    Policy {
                        gamma_gate: 300_000,
                        time_ms: 60000,
                        max_risk: 500_000,
                        tiny_diff_loc: 500,
                    },
                ),
            },
        );
        AppState { users }
    }
}

/// A request to run a goal on behalf of a user.
#[derive(Debug)]
pub struct UserRunReq {
    pub goal_id: String,
    pub inputs: Json,
    /// The policy of this request, in place of the default.
    pub policy: Option<Policy>,
}

/// The response to a run on behalf of a user.
#[derive(Debug)]
pub struct UserRunResp {
    pub user_id: String,
    pub quota_remaining: u32,
    pub manifest: Manifest,
    pub bits: Bits,
    pub pr_created: Option<String>,
    pub meta2_proposal: Option<String>,
}

/// A chat message of a user.
#[derive(Debug)]
pub struct ChatReq {
    pub message: String,
    pub thread: Option<String>,
    pub loop_mode: Option<bool>,
    pub policy: Option<Policy>,
    pub run_id: Option<String>,
}

/// The reply to a chat message.
#[derive(Debug)]
pub struct ChatResp {
    pub run_id: String,
    pub user_id: String,
    pub thread: Option<String>,
    pub reply: String,
    pub run_payload: Option<Json>,
    pub manifest: Manifest,
    pub bits: Bits,
}

/// A request to attach the output of a run to a thread.
#[derive(Debug)]
pub struct AttachRunReq {
    pub run_id: String,
    pub note: Option<String>,
}

/// The response to an attached run.
#[derive(Debug)]
pub struct AttachRunResp {
    pub ok: bool,
    pub user_id: String,
    pub thread: String,
    pub run_id: String,
    pub goal_id: Option<String>,
    pub summary: String,
}

/// How much a thread holds.
#[derive(Debug)]
pub struct ThreadSummaryResp {
    pub user_id: String,
    pub thread: String,
    pub messages_total: usize,
    pub messages_user: usize,
    pub messages_assistant: usize,
    pub messages_system: usize,
    pub messages_tool: usize,
    pub bytes_total: u64,
    pub approx_tokens: u64,
    pub last_run_ids: Vec<String>,
    pub last_updated: Option<String>,
}

/// What a user may still do.
#[derive(Debug)]
pub struct UserStatus {
    pub user_id: String,
    pub quota_remaining: u32,
    pub has_premium_policy: bool,
}

/// A request to run a goal.
#[derive(Debug)]
pub struct RunReq {
    pub goal_id: String,
    pub inputs: Json,
    pub policy: Option<Policy>,
    /// The identifier that the caller asks for.
    pub run_id: Option<String>,
}

/// A request in the form of the scripting interface: an input under a preset.
#[derive(Debug)]
pub struct TauReq {
    pub input: Option<String>,
    pub preset: Option<String>,
    pub context: Option<Json>,
    pub options: Option<Json>,
}

/// A request in the form of the scripting interface: a goal with parameters.
#[derive(Debug)]
pub struct ExecuteReq {
    pub goal: String,
    pub task_type: Option<String>,
    pub parameters: Json,
}

/// A request to mine sources for patterns.
#[derive(Debug)]
pub struct MineReq {
    pub sources: Vec<String>,
    pub patterns: Vec<String>,
    pub output_format: Option<String>,
}

impl Default for MineReq {
    fn default() -> (r: Self)
        ensures
            r.sources@.len() == 0,
            r.patterns@.len() == 0,
            r.output_format is None,
    {
        MineReq { sources: Vec::new(), patterns: Vec::new(), output_format: None }
    }
}

/// A request to run a validation suite.
#[derive(Debug)]
pub struct ValidateReq {
    pub suite: String,
}

/// The result of one task of a validation suite.
#[derive(Debug)]
pub struct ValidationResult {
    pub task: String,
    pub expected_difficulty: i64,
    pub actual_bits: Bits,
    pub score: i64,
}

/// The result of a validation suite.
#[derive(Debug)]
pub struct ValidateResp {
    pub metacognitive_score: i64,
    pub results: Vec<ValidationResult>,
    pub summary: String,
}

/// A request to validate a golden trace.
#[derive(Debug)]
pub struct GoldenReq {
    pub name: String,
}

/// The result of validating a golden trace.
#[derive(Debug)]
pub struct GoldenResp {
    pub name: String,
    pub total: usize,
    pub passed: usize,
    pub failed: usize,
    pub details: Vec<GoldenCase>,
    pub bits: Bits,
}

/// One source of recorded history.
#[derive(Debug)]
pub struct CodexSourceInfo {
    pub id: String,
    pub kind: String,
    pub description: String,
    pub available: bool,
    pub size_bytes: Option<u64>,
    pub file_count: Option<u64>,
    pub mtime: Option<String>,
}

/// The sources of recorded history.
#[derive(Debug)]
pub struct CodexSourcesResp {
    pub sources: Vec<CodexSourceInfo>,
}

/// How many events of the end of a file are asked for.
#[derive(Debug)]
pub struct CodexTailQuery {
    pub limit: Option<usize>,
}

/// How many files are asked for.
#[derive(Debug)]
pub struct CodexListQuery {
    pub limit: Option<usize>,
}

/// How much of the recorded history a capabilities report scans.
#[derive(Debug)]
pub struct CodexCapabilitiesQuery {
    pub limit_files: Option<usize>,
    pub limit_lines: Option<usize>,
    pub max_bytes: Option<u64>,
    pub include_archive: Option<bool>,
}

/// A search over the recorded history. `sources` is a list of names
/// separated by commas: `archive`, `rollouts`, `utir`; all where it is absent.
#[derive(Debug)]
pub struct CodexSearchQuery {
    pub q: String,
    pub limit: Option<usize>,
    pub limit_files: Option<usize>,
    pub limit_lines: Option<usize>,
    pub max_bytes: Option<u64>,
    pub sources: Option<String>,
    pub case_sensitive: Option<bool>,
    pub regex: Option<bool>,
}

/// One file that a capabilities report scanned.
#[derive(Debug)]
pub struct CapScanFile {
    pub source: String,
    pub file: String,
    pub size_bytes: u64,
    pub tailed_lines: usize,
}

/// One hit of a search over the recorded history.
#[derive(Debug)]
pub struct CodexSearchResult {
    pub source: String,
    pub file: String,
    pub line: u64,
    pub ts: Option<String>,
    pub kind: Option<String>,
    pub snippet: String,
}

/// The hits of a search over the recorded history.
#[derive(Debug)]
pub struct CodexSearchResp {
    pub generated_at: String,
    pub query: String,
    pub scanned_files: u64,
    pub results: Vec<CodexSearchResult>,
    pub truncated: bool,
}

/// Which engine answers: its version, the token and the reference of its
/// build where they are known, and the time of the answer.
#[derive(Debug)]
pub struct VersionInfo {
    pub engine: &'static str,
    pub build_token: Option<&'static str>,
    pub git_ref: Option<&'static str>,
    pub ts: String,
}

/// Which run a subscriber of the progress stream asks for.
#[derive(Debug)]
pub struct ProgressQuery {
    pub run_id: Option<String>,
}

} // verus!
