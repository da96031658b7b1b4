//! The conversational goal: which messages are intercepted, what the persona
//! is asked, and how its answer is completed.

use vstd::prelude::*;
use crate::api::threads::{context_of, field_text, message, thread_history};
use crate::json::{
    entries_view, flag_or, items_view, put, set_field, text_or, Json, JsonView,
};
use crate::text::{chars_of, contains_str, contains_text, lowercase, push_str, str_eq, text_of};

verus! {

/// A world that a message can ask for: its name, the seed it grows from,
/// and its rules.
#[derive(Debug)]
pub struct Profile {
    pub name: &'static str,
    pub seed: &'static str,
    pub rules: Vec<(&'static str, &'static str)>,
}

/// The name of the world that an already lowercased message asks for, by
/// the first of these words that it holds; empty where it asks for none.
pub open spec fn profile_name(lowered: Seq<char>) -> Seq<char> {
    if contains_text(lowered, "real"@) || contains_text(lowered, "system"@) || contains_text(
        lowered,
        "trace"@,
    ) {
        "System Matrix (Real Trace)"@
    } else if contains_text(lowered, "mvs"@) || contains_text(lowered, "skeleton"@)
        || contains_text(lowered, "viewport"@) {
        "Mutating Viewport Skeleton (MVS)"@
    } else if contains_text(lowered, "grow"@) || contains_text(lowered, "bio"@) {
        "Biological Growth"@
    } else if contains_text(lowered, "decay"@) || contains_text(lowered, "simple"@) {
        "Digital Decay"@
    } else if contains_text(lowered, "cycle"@) || contains_text(lowered, "loop"@) {
        "Cyclic Stagnation"@
    } else if contains_text(lowered, "divine"@) || contains_text(lowered, "chaos"@)
        || contains_text(lowered, "matrix"@) {
        "Chaotic Expansion (Divine)"@
    } else {
        Seq::<char>::empty()
    }
}

/// The rules of a profile as pairs of texts.
pub open spec fn profile_rules(p: Profile) -> Seq<(Seq<char>, Seq<char>)> {
    Seq::new(p.rules@.len(), |i: int| (p.rules@[i].0@, p.rules@[i].1@))
}

/// The seed and the rules of the world of this name.
pub open spec fn world_of(name: Seq<char>) -> (Seq<char>, Seq<(Seq<char>, Seq<char>)>) {
    if name == "Mutating Viewport Skeleton (MVS)"@ {
        ("P"@, seq![("P"@, "PL"@), ("L"@, "P"@)])
    } else if name == "Biological Growth"@ {
        ("A"@, seq![("A"@, "AB"@), ("B"@, "A"@)])
    } else if name == "Digital Decay"@ {
        ("10101"@, seq![("10"@, "0"@), ("01"@, "1"@)])
    } else if name == "Cyclic Stagnation"@ {
        ("A"@, seq![("A"@, "B"@), ("B"@, "C"@), ("C"@, "A"@)])
    } else if name == "Chaotic Expansion (Divine)"@ {
        ("A"@, seq![("A"@, "BC"@), ("B"@, "CA"@), ("C"@, "AB"@)])
    } else {
        (Seq::<char>::empty(), Seq::<(Seq<char>, Seq<char>)>::empty())
    }
}

/// The world that an already lowercased message asks for.
pub fn profile_of_lowered(lowered: &str) -> (r: Option<Profile>)
    ensures
        r is Some <==> profile_name(lowered@).len() > 0,
        r matches Some(p) ==> p.name@ == profile_name(lowered@) && (p.seed@, profile_rules(p))
            == world_of(p.name@),
{
    proof {
        reveal_strlit("System Matrix (Real Trace)");
        reveal_strlit("Mutating Viewport Skeleton (MVS)");
        reveal_strlit("Biological Growth");
        reveal_strlit("Digital Decay");
        reveal_strlit("Cyclic Stagnation");
        reveal_strlit("Chaotic Expansion (Divine)");
        reveal_strlit("");
    }
    let m = chars_of(lowered);
    let mut rules: Vec<(&'static str, &'static str)> = Vec::new();
    if contains_str(&m, "real") || contains_str(&m, "system") || contains_str(&m, "trace") {
        let p = Profile { name: "System Matrix (Real Trace)", seed: "", rules };
        assert(profile_rules(p) =~= Seq::<(Seq<char>, Seq<char>)>::empty());
        assert(""@ =~= Seq::<char>::empty());
        assert(p.name@[0] == 'S');
        Some(p)
    } else if contains_str(&m, "mvs") || contains_str(&m, "skeleton") || contains_str(
        &m,
        "viewport",
    ) {
        rules.push(("P", "PL"));
        rules.push(("L", "P"));
        let p = Profile { name: "Mutating Viewport Skeleton (MVS)", seed: "P", rules };
        assert(profile_rules(p) =~= seq![("P"@, "PL"@), ("L"@, "P"@)]);
        Some(p)
    } else if contains_str(&m, "grow") || contains_str(&m, "bio") {
        rules.push(("A", "AB"));
        rules.push(("B", "A"));
        let p = Profile { name: "Biological Growth", seed: "A", rules };
        assert(profile_rules(p) =~= seq![("A"@, "AB"@), ("B"@, "A"@)]);
        assert(p.name@[0] == 'B');
        assert("Mutating Viewport Skeleton (MVS)"@[0] == 'M');
        Some(p)
    } else if contains_str(&m, "decay") || contains_str(&m, "simple") {
        rules.push(("10", "0"));
        rules.push(("01", "1"));
        let p = Profile { name: "Digital Decay", seed: "10101", rules };
        assert(profile_rules(p) =~= seq![("10"@, "0"@), ("01"@, "1"@)]);
        assert(p.name@[0] == 'D');
        assert("Mutating Viewport Skeleton (MVS)"@[0] == 'M');
        assert("Biological Growth"@[0] == 'B');
        Some(p)
    } else if contains_str(&m, "cycle") || contains_str(&m, "loop") {
        rules.push(("A", "B"));
        rules.push(("B", "C"));
        rules.push(("C", "A"));
        let p = Profile { name: "Cyclic Stagnation", seed: "A", rules };
        assert(profile_rules(p) =~= seq![("A"@, "B"@), ("B"@, "C"@), ("C"@, "A"@)]);
        assert(p.name@[1] == 'y');
        assert("Mutating Viewport Skeleton (MVS)"@[1] == 'u');
        assert("Biological Growth"@[1] == 'i');
        assert("Digital Decay"@[1] == 'i');
        Some(p)
    } else if contains_str(&m, "divine") || contains_str(&m, "chaos") || contains_str(
        &m,
        "matrix",
    ) {
        rules.push(("A", "BC"));
        rules.push(("B", "CA"));
        rules.push(("C", "AB"));
        let p = Profile { name: "Chaotic Expansion (Divine)", seed: "A", rules };
        assert(profile_rules(p) =~= seq![("A"@, "BC"@), ("B"@, "CA"@), ("C"@, "AB"@)]);
        assert(p.name@[1] == 'h');
        assert("Mutating Viewport Skeleton (MVS)"@[1] == 'u');
        assert("Biological Growth"@[1] == 'i');
        assert("Digital Decay"@[1] == 'i');
        assert("Cyclic Stagnation"@[1] == 'y');
        Some(p)
    } else {
        None
    }
}

/// The world that a message asks for, read without regard to case.
pub fn intent_profile(message: &str) -> (r: Option<Profile>)
    ensures
        r is Some <==> profile_name(lowercase(message@)).len() > 0,
        r matches Some(p) ==> p.name@ == profile_name(lowercase(message@)) && (
            p.seed@,
            profile_rules(p),
        ) == world_of(p.name@),
{
    let lowered = message.to_lowercase();
    profile_of_lowered(lowered.as_str())
}

/// What the persona is told in loop mode.
pub open spec fn loop_notice() -> Seq<char> {
    "LOOP MODE: Always include a runnable run_payload. If uncertain, default to {\"goal_id\":\"wiki.generate\",\"inputs\":{}}. Keep reply short and include what will run."@
}

/// The history that the input of a chat carries, as messages of the context.
pub open spec fn history_of(inputs: JsonView) -> Seq<JsonView> {
    match inputs.get("history"@) {
        Some(h) => match h.as_list() {
            Some(items) => context_of(items),
            None => Seq::<JsonView>::empty(),
        },
        None => Seq::<JsonView>::empty(),
    }
}

/// The messages that the persona is asked with: the persona itself, the
/// notice of loop mode where it is on, the history, and the message of the
/// user.
pub open spec fn asked_messages(inputs: JsonView, persona: Seq<char>) -> Seq<JsonView> {
    seq![message("system"@, persona)] + (if flag_or(inputs, "loop_mode"@, false) {
        seq![message("system"@, loop_notice())]
    } else {
        Seq::<JsonView>::empty()
    }) + history_of(inputs) + seq![message("user"@, field_text(inputs, "message"@))]
}

/// A message of the context of a chat.
fn message_json(role: &str, content: &str) -> (r: Json)
    ensures
        r@ == message(role@, content@),
{
    let mut e: Vec<(String, Json)> = Vec::new();
    put(&mut e, "role", Json::text(role));
    put(&mut e, "content", Json::text(content));
    assert(entries_view(e@) =~= seq![
        ("role"@, JsonView::Text(role@)),
        ("content"@, JsonView::Text(content@)),
    ]);
    Json::Object(e)
}

/// The messages that the persona is asked with.
pub fn chat_messages(inputs: &Json, persona: &str) -> (out: Vec<Json>)
    ensures
        items_view(out@) == asked_messages(inputs@, persona@),
{
    let mut out: Vec<Json> = Vec::new();
    out.push(message_json("system", persona));
    if inputs.flag_or("loop_mode", false) {
        out.push(
            message_json(
                "system",
                "LOOP MODE: Always include a runnable run_payload. If uncertain, default to {\"goal_id\":\"wiki.generate\",\"inputs\":{}}. Keep reply short and include what will run.",
            ),
        );
    }
    let ghost head = items_view(out@);
    let history: Vec<Json> = match inputs.get("history") {
        Some(h) => match h.as_array() {
            Some(items) => thread_history(items),
            None => Vec::new(),
        },
        None => Vec::new(),
    };
    assert(items_view(history@) =~= history_of(inputs@));
    let mut history = history;
    let ghost hist = items_view(history@);
    let ghost n = hist.len() as int;
    let mut used: Ghost<int> = Ghost(0);
    assert(hist.take(0) =~= Seq::<JsonView>::empty());
    assert(hist.skip(0) =~= hist);
    assert(head + hist.take(0) =~= head);
    while history.len() > 0
        invariant
            0 <= used@ <= n,
            n == hist.len(),
            items_view(history@) == hist.skip(used@),
            items_view(out@) == head + hist.take(used@),
        decreases history.len(),
    {
        let ghost old_history = history@;
        let ghost before = items_view(out@);
        proof {
            assert(items_view(old_history).len() == old_history.len());
            assert(hist.skip(used@).len() == n - used@);
        }
        let m = history.remove(0);
        proof {
            assert(items_view(old_history)[0] == old_history[0]@);
            assert(m@ == hist[used@]);
            assert forall|j: int| 0 <= j < history@.len() implies items_view(history@)[j]
                == hist.skip(used@ + 1)[j] by {
                assert(history@[j] == old_history[j + 1]);
                assert(items_view(old_history)[j + 1] == old_history[j + 1]@);
            }
            assert(items_view(history@) =~= hist.skip(used@ + 1));
        }
        out.push(m);
        proof {
            assert(items_view(out@) =~= before.push(m@));
            assert(head + hist.take(used@ + 1) =~= (head + hist.take(used@)).push(hist[used@]));
            used@ = used@ + 1;
        }
    }
    proof {
        assert(hist.take(n) =~= hist);
        reveal_strlit("");
    }
    let ghost before = items_view(out@);
    let user_msg = match inputs.str_at("message") {
        Some(m) => m,
        None => "",
    };
    assert(user_msg@ =~= field_text(inputs@, "message"@));
    out.push(message_json("user", user_msg));
    assert(items_view(out@) =~= before.push(message("user"@, user_msg@)));
    assert(items_view(out@) =~= asked_messages(inputs@, persona@));
    out
}

/// The intent that an answer gets where it names none.
pub open spec fn chat_intent(evidence: Seq<char>) -> JsonView {
    JsonView::Object(
        seq![
            ("goal"@, JsonView::Text("chat"@)),
            ("constraints"@, JsonView::List(Seq::<JsonView>::empty())),
            ("evidence"@, JsonView::List(seq![JsonView::Text(evidence)])),
        ],
    )
}

/// The bits that an answer gets where it names none: asked, permitted and
/// trusted, with information gain and risk as given.
pub open spec fn answer_bits(gain: int) -> JsonView {
    JsonView::Object(
        seq![
            ("A"@, JsonView::Int(1)),
            ("U"@, JsonView::Int(0)),
            ("P"@, JsonView::Int(1)),
            ("E"@, JsonView::Int(0)),
            ("Δ"@, JsonView::Int(0)),
            ("I"@, JsonView::Int(gain)),
            ("R"@, JsonView::Int(gain)),
            ("T"@, JsonView::Int(1)),
            ("M"@, JsonView::Int(0)),
        ],
    )
}

/// The run that loop mode falls back to: a wiki snapshot.
pub open spec fn wiki_payload() -> JsonView {
    JsonView::Object(
        seq![
            ("goal_id"@, JsonView::Text("wiki.generate"@)),
            ("inputs"@, JsonView::Object(Seq::<(Seq<char>, JsonView)>::empty())),
        ],
    )
}

/// The intent that an answer gets where it names none.
fn chat_intent_json(evidence: &str) -> (r: Json)
    ensures
        r@ == chat_intent(evidence@),
{
    let mut ev: Vec<Json> = Vec::new();
    ev.push(Json::text(evidence));
    assert(items_view(ev@) =~= seq![JsonView::Text(evidence@)]);
    let none: Vec<Json> = Vec::new();
    assert(items_view(none@) =~= Seq::<JsonView>::empty());
    let mut e: Vec<(String, Json)> = Vec::new();
    put(&mut e, "goal", Json::text("chat"));
    put(&mut e, "constraints", Json::List(none));
    put(&mut e, "evidence", Json::List(ev));
    assert(entries_view(e@) =~= chat_intent(evidence@)->Object_0);
    Json::Object(e)
}

/// The bits that an answer gets where it names none.
fn answer_bits_json(gain: i64) -> (r: Json)
    ensures
        r@ == answer_bits(gain as int),
{
    let mut e: Vec<(String, Json)> = Vec::new();
    put(&mut e, "A", Json::Int(1));
    put(&mut e, "U", Json::Int(0));
    put(&mut e, "P", Json::Int(1));
    put(&mut e, "E", Json::Int(0));
    put(&mut e, "Δ", Json::Int(0));
    put(&mut e, "I", Json::Int(gain));
    put(&mut e, "R", Json::Int(gain));
    put(&mut e, "T", Json::Int(1));
    put(&mut e, "M", Json::Int(0));
    assert(entries_view(e@) =~= answer_bits(gain as int)->Object_0);
    Json::Object(e)
}

/// The run that loop mode falls back to.
fn wiki_payload_json() -> (r: Json)
    ensures
        r@ == wiki_payload(),
{
    let inputs: Vec<(String, Json)> = Vec::new();
    assert(entries_view(inputs@) =~= Seq::<(Seq<char>, JsonView)>::empty());
    let mut e: Vec<(String, Json)> = Vec::new();
    put(&mut e, "goal_id", Json::text("wiki.generate"));
    put(&mut e, "inputs", Json::Object(inputs));
    assert(entries_view(e@) =~= wiki_payload()->Object_0);
    Json::Object(e)
}

/// An answer with the field `key` set to `value` where it has no such field.
pub open spec fn defaulted(answer: JsonView, key: Seq<char>, value: JsonView) -> JsonView {
    if answer.get(key) is None {
        answer.with(key, value)
    } else {
        answer
    }
}

/// The user asks to build: the lowercased message holds `build`, `compile`
/// or `meta3`.
pub open spec fn asks_to_build(lowered: Seq<char>) -> bool {
    contains_text(lowered, "build"@) || contains_text(lowered, "compile"@) || contains_text(
        lowered,
        "meta3"@,
    )
}

/// In loop mode the run of an answer is replaced by a wiki snapshot: where
/// the answer names no goal, or names a build that the user did not ask
/// for.
pub open spec fn overridden(answer: JsonView, lowered: Seq<char>) -> bool {
    match answer.get("run_payload"@) {
        Some(rp) => {
            let goal = field_text(rp, "goal_id"@);
            goal.len() == 0 || (goal == "meta3.build"@ && !asks_to_build(lowered))
        },
        None => true,
    }
}

/// The answer of the persona, completed: with an intent, bits, a reply and a
/// run where it lacks them, and in loop mode with a run that is safe to
/// take.
pub open spec fn completed(
    answer: JsonView,
    persona: Seq<char>,
    loop_mode: bool,
    lowered: Seq<char>,
) -> JsonView {
    let a1 = defaulted(answer, "intent"@, chat_intent(persona));
    let a2 = defaulted(a1, "bits"@, answer_bits(0));
    let a3 = defaulted(a2, "reply"@, JsonView::Text(text_or(a2, "response"@, "ok"@)));
    let a4 = defaulted(
        a3,
        "run_payload"@,
        if loop_mode {
            wiki_payload()
        } else {
            JsonView::Null
        },
    );
    if loop_mode && overridden(a4, lowered) {
        a4.with("run_payload"@, wiki_payload())
    } else {
        a4
    }
}

/// Completes the answer of the persona; `lowered` is the message of the
/// user in lowercase.
pub fn complete_answer_lowered(answer: Json, persona: &str, loop_mode: bool, lowered: &str) -> (r:
    Json)
    ensures
        r@ == completed(answer@, persona@, loop_mode, lowered@),
{
    let mut a = answer;
    if a.get("intent").is_none() {
        a = set_field(a, "intent", chat_intent_json(persona));
    }
    if a.get("bits").is_none() {
        a = set_field(a, "bits", answer_bits_json(0));
    }
    if a.get("reply").is_none() {
        let reply = a.text_or("response", "ok");
        a = set_field(a, "reply", Json::Text(reply));
    }
    if a.get("run_payload").is_none() {
        let payload = if loop_mode {
            wiki_payload_json()
        } else {
            Json::Null
        };
        a = set_field(a, "run_payload", payload);
    }
    if loop_mode {
        let m = chars_of(lowered);
        let user_says_build = contains_str(&m, "build") || contains_str(&m, "compile")
            || contains_str(&m, "meta3");
        proof {
            reveal_strlit("");
        }
        let replace = match a.get("run_payload") {
            Some(rp) => {
                let goal = match rp.str_at("goal_id") {
                    Some(g) => g,
                    None => "",
                };
                assert(goal@ =~= field_text(rp@, "goal_id"@));
                goal.unicode_len() == 0 || (str_eq(goal, "meta3.build") && !user_says_build)
            },
            None => true,
        };
        if replace {
            a = set_field(a, "run_payload", wiki_payload_json());
        }
    }
    a
}

/// Completes the answer of the persona to the message `user_msg`.
pub fn complete_answer(answer: Json, persona: &str, loop_mode: bool, user_msg: &str) -> (r: Json)
    ensures
        r@ == completed(answer@, persona@, loop_mode, lowercase(user_msg@)),
{
    let lowered = user_msg.to_lowercase();
    complete_answer_lowered(answer, persona, loop_mode, lowered.as_str())
}

/// The reply where the persona cannot be reached.
pub open spec fn fallback_reply() -> Seq<char> {
    "Chat router unavailable. Using fallback simulation.\n\nTry interactive commands like:\n- 'generate divine chaos'\n- 'show me biological growth'\n- 'simulate decay'\n- 'create a cycle'"@
}

/// The answer where the persona cannot be reached, for the reason `error`.
pub open spec fn fallback(loop_mode: bool, error: Seq<char>) -> JsonView {
    JsonView::Object(
        seq![
            ("intent"@, chat_intent("fallback"@)),
            ("bits"@, answer_bits(1)),
            ("reply"@, JsonView::Text(fallback_reply())),
            (
                "run_payload"@,
                if loop_mode {
                    wiki_payload()
                } else {
                    JsonView::Null
                },
            ),
            ("patch"@, JsonView::Null),
            (
                "explanation"@,
                JsonView::Object(
                    seq![
                        ("assumptions"@, JsonView::List(seq![JsonView::Text("router unavailable"@)])),
                        ("evidence"@, JsonView::List(seq![JsonView::Text(error)])),
                    ],
                ),
            ),
        ],
    )
}

/// A list of one text.
fn one_text(s: &str) -> (r: Json)
    ensures
        r@ == JsonView::List(seq![JsonView::Text(s@)]),
{
    let mut v: Vec<Json> = Vec::new();
    v.push(Json::text(s));
    assert(items_view(v@) =~= seq![JsonView::Text(s@)]);
    Json::List(v)
}

/// The answer where the persona cannot be reached.
pub fn fallback_answer(loop_mode: bool, error: &str) -> (r: Json)
    ensures
        r@ == fallback(loop_mode, error@),
{
    let mut x: Vec<(String, Json)> = Vec::new();
    put(&mut x, "assumptions", one_text("router unavailable"));
    put(&mut x, "evidence", one_text(error));
    assert(entries_view(x@) =~= seq![
        ("assumptions"@, JsonView::List(seq![JsonView::Text("router unavailable"@)])),
        ("evidence"@, JsonView::List(seq![JsonView::Text(error@)])),
    ]);
    let mut e: Vec<(String, Json)> = Vec::new();
    put(&mut e, "intent", chat_intent_json("fallback"));
    put(&mut e, "bits", answer_bits_json(1));
    put(
        &mut e,
        "reply",
        Json::text(
            "Chat router unavailable. Using fallback simulation.\n\nTry interactive commands like:\n- 'generate divine chaos'\n- 'show me biological growth'\n- 'simulate decay'\n- 'create a cycle'",
        ),
    );
    put(
        &mut e,
        "run_payload",
        if loop_mode {
            wiki_payload_json()
        } else {
            Json::Null
        },
    );
    put(&mut e, "patch", Json::Null);
    put(&mut e, "explanation", Json::Object(x));
    assert(entries_view(e@) =~= fallback(loop_mode, error@)->Object_0);
    Json::Object(e)
}

/// A world is drawn from the recorded trace rather than grown from a seed.
pub open spec fn from_trace(name: Seq<char>) -> bool {
    contains_text(name, "Real"@)
}

/// Whether a world is drawn from the recorded trace.
pub fn is_from_trace(p: &Profile) -> (r: bool)
    ensures
        r == from_trace(p.name@),
{
    contains_str(&chars_of(p.name), "Real")
}

/// What is told of a world that was asked for: where it can be seen, or
/// that it could not be made.
pub open spec fn world_reply(name: Seq<char>, world: Result<Seq<char>, Seq<char>>) -> Seq<char> {
    "CodeAct: Detected intent '"@ + name
        + "'.\nAction: Visualizing Causal Graph.\nObservation: "@ + match world {
        Ok(url) => "\n\n🔮 World Generated: "@ + url,
        Err(_) => "\n\n(World generation failed)"@,
    }
}

/// Rules as a structured value: a list of pairs of pattern and replacement.
pub open spec fn rules_list(rules: Seq<(Seq<char>, Seq<char>)>) -> JsonView {
    JsonView::List(
        Seq::new(
            rules.len(),
            |i: int| JsonView::List(seq![JsonView::Text(rules[i].0), JsonView::Text(rules[i].1)]),
        ),
    )
}

/// The run that repeats a world: the rewriting kernel with the seed and the
/// rules of the world, eight levels deep.
pub open spec fn world_payload(p: Profile) -> JsonView {
    JsonView::Object(
        seq![
            ("goal_id"@, JsonView::Text("ruliad.kernel"@)),
            (
                "inputs"@,
                JsonView::Object(
                    seq![
                        ("seed"@, JsonView::Text(p.seed@)),
                        ("rules"@, rules_list(profile_rules(p))),
                        ("depth"@, JsonView::Int(8)),
                        (
                            "mode"@,
                            JsonView::Text(
                                if from_trace(p.name@) {
                                    "real"@
                                } else {
                                    "simulated"@
                                },
                            ),
                        ),
                    ],
                ),
            ),
        ],
    )
}

/// The answer to a message that asks for a world, given where the world
/// can be seen, or why it could not be made.
pub open spec fn world_view(p: Profile, world: Result<Seq<char>, Seq<char>>) -> JsonView {
    JsonView::Object(
        seq![
            (
                "intent"@,
                JsonView::Object(
                    seq![
                        ("goal"@, JsonView::Text("meta.divine"@)),
                        (
                            "constraints"@,
                            JsonView::List(
                                seq![
                                    JsonView::Text("interactive"@),
                                    JsonView::Text("intercepted"@),
                                ],
                            ),
                        ),
                        ("evidence"@, JsonView::List(seq![JsonView::Text("code_act_override"@)])),
                    ],
                ),
            ),
            ("intent_profile"@, JsonView::Text(p.name@)),
            ("bits"@, answer_bits(1)),
            ("reply"@, JsonView::Text(world_reply(p.name@, world))),
            ("run_payload"@, world_payload(p)),
            ("patch"@, JsonView::Null),
            (
                "explanation"@,
                JsonView::Object(
                    seq![
                        (
                            "assumptions"@,
                            JsonView::List(
                                seq![
                                    JsonView::Text("kernel override"@),
                                    JsonView::Text("direct execution"@),
                                ],
                            ),
                        ),
                        ("evidence"@, JsonView::List(Seq::<JsonView>::empty())),
                    ],
                ),
            ),
        ] + match world {
            Ok(url) => seq![("impact_url"@, JsonView::Text(url))],
            Err(_) => Seq::<(Seq<char>, JsonView)>::empty(),
        },
    )
}

/// A list of two texts.
fn two_texts(a: &str, b: &str) -> (r: Json)
    ensures
        r@ == JsonView::List(seq![JsonView::Text(a@), JsonView::Text(b@)]),
{
    let mut v: Vec<Json> = Vec::new();
    v.push(Json::text(a));
    v.push(Json::text(b));
    assert(items_view(v@) =~= seq![JsonView::Text(a@), JsonView::Text(b@)]);
    Json::List(v)
}

/// The run that repeats a world.
fn world_payload_json(p: &Profile) -> (r: Json)
    ensures
        r@ == world_payload(*p),
{
    let mut rules: Vec<Json> = Vec::new();
    let mut i: usize = 0;
    while i < p.rules.len()
        invariant
            i <= p.rules.len(),
            rules@.len() == i,
            forall|j: int|
                0 <= j < i ==> (#[trigger] rules@[j])@ == JsonView::List(
                    seq![JsonView::Text(p.rules@[j].0@), JsonView::Text(p.rules@[j].1@)],
                ),
        decreases p.rules.len() - i,
    {
        rules.push(two_texts(p.rules[i].0, p.rules[i].1));
        i += 1;
    }
    assert(items_view(rules@) =~= rules_list(profile_rules(*p))->List_0);
    let mode = if is_from_trace(p) {
        "real"
    } else {
        "simulated"
    };
    let mut inputs: Vec<(String, Json)> = Vec::new();
    put(&mut inputs, "seed", Json::text(p.seed));
    put(&mut inputs, "rules", Json::List(rules));
    put(&mut inputs, "depth", Json::Int(8));
    put(&mut inputs, "mode", Json::text(mode));
    assert(entries_view(inputs@) =~= world_payload(*p)->Object_0[1].1->Object_0);
    let mut e: Vec<(String, Json)> = Vec::new();
    put(&mut e, "goal_id", Json::text("ruliad.kernel"));
    put(&mut e, "inputs", Json::Object(inputs));
    assert(entries_view(e@) =~= world_payload(*p)->Object_0);
    Json::Object(e)
}

/// Where a world can be seen, or why it could not be made, as texts.
pub open spec fn world_result(world: Result<String, String>) -> Result<Seq<char>, Seq<char>> {
    match world {
        Ok(u) => Ok(u@),
        Err(e) => Err(e@),
    }
}

/// The answer to a message that asks for a world, given where the world
/// can be seen, or why it could not be made.
pub fn world_answer(p: &Profile, world: Result<String, String>) -> (r: Json)
    ensures
        r@ == world_view(*p, world_result(world)),
{
    let ghost w = world_result(world);
    let mut reply = chars_of("CodeAct: Detected intent '");
    push_str(&mut reply, p.name);
    push_str(&mut reply, "'.\nAction: Visualizing Causal Graph.\nObservation: ");
    let mut seen: Vec<char> = Vec::new();
    match &world {
        Ok(url) => {
            seen = chars_of("\n\n🔮 World Generated: ");
            push_str(&mut seen, url.as_str());
        },
        Err(_) => {
            seen = chars_of("\n\n(World generation failed)");
        },
    }
    crate::text::push_all(&mut reply, &seen);
    assert(reply@ == world_reply(p.name@, w));
    let mut intent: Vec<(String, Json)> = Vec::new();
    put(&mut intent, "goal", Json::text("meta.divine"));
    put(&mut intent, "constraints", two_texts("interactive", "intercepted"));
    put(&mut intent, "evidence", one_text("code_act_override"));
    assert(entries_view(intent@) =~= world_view(*p, w)->Object_0[0].1->Object_0);
    let none: Vec<Json> = Vec::new();
    assert(items_view(none@) =~= Seq::<JsonView>::empty());
    let mut x: Vec<(String, Json)> = Vec::new();
    put(&mut x, "assumptions", two_texts("kernel override", "direct execution"));
    put(&mut x, "evidence", Json::List(none));
    assert(entries_view(x@) =~= world_view(*p, w)->Object_0[6].1->Object_0);
    let mut e: Vec<(String, Json)> = Vec::new();
    put(&mut e, "intent", Json::Object(intent));
    put(&mut e, "intent_profile", Json::text(p.name));
    put(&mut e, "bits", answer_bits_json(1));
    put(&mut e, "reply", Json::Text(text_of(&reply)));
    put(&mut e, "run_payload", world_payload_json(p));
    put(&mut e, "patch", Json::Null);
    put(&mut e, "explanation", Json::Object(x));
    if let Ok(url) = world {
        put(&mut e, "impact_url", Json::Text(url));
    }
    assert(entries_view(e@) =~= world_view(*p, w)->Object_0);
    Json::Object(e)
}

} // verus!
