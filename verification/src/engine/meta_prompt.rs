//! The local answers of the engine to a plain message.

use vstd::prelude::*;
use crate::api::{bits_json, bits_view};
use crate::json::{entries_view, items_view, put, set_field, Json, JsonView};
use crate::text::{chars_of, contains_str, contains_text, lowercase};
use super::bits::Bits;

verus! {

/// What the engine says of itself.
pub const ABOUT_ITSELF: &'static str =
    "I am One Engine v0.2, a metacognitive AI system with self-awareness capabilities.";

/// How the engine greets.
pub const GREETING: &'static str =
    "Hello! I'm One Engine, ready to assist with metacognitive validation and adaptive control.";

/// What the engine offers.
pub const OFFER: &'static str =
    "I can process tasks with uncertainty tracking, trust calibration, and failure awareness. Try asking about my capabilities!";

/// What the engine says to anything else.
pub const ANYTHING_ELSE: &'static str =
    "I'm processing your request with metacognitive awareness. How can I help you today?";

/// The answer to a message that reads `lowered` in lowercase: what the
/// engine is where the message asks who it is, else a greeting where it
/// greets, else an offer where it asks for help, else a general answer.
pub open spec fn local_answer(lowered: Seq<char>) -> Seq<char> {
    if contains_text(lowered, "who am i"@) {
        ABOUT_ITSELF@
    } else if contains_text(lowered, "hello"@) {
        GREETING@
    } else if contains_text(lowered, "help"@) {
        OFFER@
    } else {
        ANYTHING_ELSE@
    }
}

/// The answer of the engine to a message, without any model behind it. The
/// system prompt, the history and the self observation do not change it.
pub fn process_meta_prompt(
    _system: &str,
    message: &str,
    _history: &Vec<Json>,
    _self_obs: Option<&str>,
) -> (r: String)
    ensures
        r@ == local_answer(lowercase(message@)),
{
    let lowered = message.to_lowercase();
    let m = chars_of(lowered.as_str());
    if contains_str(&m, "who am i") {
        ABOUT_ITSELF.to_owned()
    } else if contains_str(&m, "hello") {
        GREETING.to_owned()
    } else if contains_str(&m, "help") {
        OFFER.to_owned()
    } else {
        ANYTHING_ELSE.to_owned()
    }
}

/// The persona of the engine where none is written down.
pub const DEFAULT_PERSONA: &'static str =
    "You are One Engine v0.2, a metacognitive AI system. Act with clarity.";

/// What the engine answers when the router cannot be reached: its intent
/// with the persona as evidence, the bits, and the reason.
pub open spec fn fallback_view(persona: Seq<char>, bits: Bits) -> JsonView {
    JsonView::Object(
        seq![
            (
                "intent"@,
                JsonView::Object(
                    seq![
                        ("goal"@, JsonView::Text("meta.prompt"@)),
                        (
                            "constraints"@,
                            JsonView::List(seq![JsonView::Text("Stay within self-model"@)]),
                        ),
                        ("evidence"@, JsonView::List(seq![JsonView::Text(persona)])),
                    ],
                ),
            ),
            ("bits"@, bits_view(bits)),
            (
                "explanation"@,
                JsonView::Object(
                    seq![("reason"@, JsonView::Text("router unavailable, fallback only"@))],
                ),
            ),
            (
                "manifest"@,
                JsonView::Object(
                    seq![
                        (
                            "evidence"@,
                            JsonView::Object(
                                seq![("reply"@, JsonView::Text("router unavailable"@))],
                            ),
                        ),
                    ],
                ),
            ),
        ],
    )
}

/// What the engine returns for the answer of the router: the answer with
/// the bits set in it (an answer that is no object stays as it is), and the
/// fallback where the router failed.
pub open spec fn handled(
    persona: Seq<char>,
    bits: Bits,
    answer: Result<JsonView, Seq<char>>,
) -> JsonView {
    match answer {
        Ok(v) => v.with("bits"@, bits_view(bits)),
        Err(_) => fallback_view(persona, bits),
    }
}

/// A list of one text.
fn one_text(s: &str) -> (r: Json)
    ensures
        r@ == JsonView::List(seq![JsonView::Text(s@)]),
{
    let mut items: Vec<Json> = Vec::new();
    items.push(Json::text(s));
    assert(items_view(items@) =~= seq![JsonView::Text(s@)]);
    Json::List(items)
}

/// An object with one text.
fn one_field(key: &str, value: Json) -> (r: Json)
    ensures
        r@ == JsonView::Object(seq![(key@, value@)]),
{
    let mut e: Vec<(String, Json)> = Vec::new();
    put(&mut e, key, value);
    assert(entries_view(e@) =~= seq![(key@, value@)]);
    Json::Object(e)
}

/// What the engine answers when the router cannot be reached.
pub fn fallback_response(persona: &str, bits: &Bits) -> (r: Json)
    ensures
        r@ == fallback_view(persona@, *bits),
{
    let mut intent: Vec<(String, Json)> = Vec::new();
    put(&mut intent, "goal", Json::text("meta.prompt"));
    put(&mut intent, "constraints", one_text("Stay within self-model"));
    put(&mut intent, "evidence", one_text(persona));
    assert(entries_view(intent@) =~= seq![
        ("goal"@, JsonView::Text("meta.prompt"@)),
        ("constraints"@, JsonView::List(seq![JsonView::Text("Stay within self-model"@)])),
        ("evidence"@, JsonView::List(seq![JsonView::Text(persona@)])),
    ]);
    let mut e: Vec<(String, Json)> = Vec::new();
    put(&mut e, "intent", Json::Object(intent));
    put(&mut e, "bits", bits_json(bits));
    put(
        &mut e,
        "explanation",
        one_field("reason", Json::text("router unavailable, fallback only")),
    );
    put(
        &mut e,
        "manifest",
        one_field("evidence", one_field("reply", Json::text("router unavailable"))),
    );
    assert(entries_view(e@) =~= fallback_view(persona@, *bits)->Object_0);
    Json::Object(e)
}

/// What the engine returns for the answer of the router.
pub fn handle_with(persona: &str, bits: &Bits, answer: Result<Json, String>) -> (r: Json)
    ensures
        r@ == handled(
            persona@,
            *bits,
            match answer {
                Ok(v) => Ok(v@),
                Err(e) => Err(e@),
            },
        ),
{
    match answer {
        Ok(v) => set_field(v, "bits", bits_json(bits)),
        Err(_) => fallback_response(persona, bits),
    }
}

} // verus!
