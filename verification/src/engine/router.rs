//! The chat router: how it is configured, what it is sent, and what is
//! made of its answer. Sending is the part of the caller.

use vstd::prelude::*;
use crate::json::{entries_view, items_view, put, Json, JsonView};
use crate::text::{blank, chars_of, is_blank_str, opt_view};

verus! {

/// The address of the router where none is configured.
pub const DEFAULT_URL: &'static str = "https://openrouter.ai/api/v1/chat/completions";

/// The model of the router where none is configured.
pub const DEFAULT_MODEL: &'static str = "moonshotai/kimi-k2";

/// The first of the values that is set to more than white space.
pub open spec fn first_set(values: Seq<Option<String>>) -> Option<Seq<char>>
    decreases values.len(),
{
    if values.len() == 0 {
        None
    } else {
        match values[0] {
            Some(v) => if blank(v@) {
                first_set(values.drop_first())
            } else {
                Some(v@)
            },
            None => first_set(values.drop_first()),
        }
    }
}

/// The first of the values that is set to more than white space. `values`
/// are the values of the settings that can configure one thing, in the order
/// of their precedence.
pub fn first_env(values: &Vec<Option<String>>) -> (r: Option<String>)
    ensures
        opt_view(r) == first_set(values@),
{
    let mut i: usize = 0;
    assert(values@.skip(0) =~= values@);
    while i < values.len()
        invariant
            i <= values.len(),
            first_set(values@) == first_set(values@.skip(i as int)),
        decreases values.len() - i,
    {
        proof {
            assert(values@.skip(i as int)[0] == values@[i as int]);
            assert(values@.skip(i as int).drop_first() =~= values@.skip(i + 1));
        }
        if let Some(v) = &values[i] {
            if !is_blank_str(v.as_str()) {
                return Some(v.clone());
            }
        }
        i += 1;
    }
    None
}

/// The address of the router.
pub fn api_url(values: &Vec<Option<String>>) -> (r: String)
    ensures
        r@ == match first_set(values@) {
            Some(v) => v,
            None => DEFAULT_URL@,
        },
{
    match first_env(values) {
        Some(v) => v,
        None => DEFAULT_URL.to_owned(),
    }
}

/// The model of the router.
pub fn model_name(values: &Vec<Option<String>>) -> (r: String)
    ensures
        r@ == match first_set(values@) {
            Some(v) => v,
            None => DEFAULT_MODEL@,
        },
{
    match first_env(values) {
        Some(v) => v,
        None => DEFAULT_MODEL.to_owned(),
    }
}

/// The key of the router; an error where none is configured.
pub fn api_key(values: &Vec<Option<String>>) -> (r: Result<String, String>)
    ensures
        match r {
            Ok(k) => first_set(values@) == Some(k@),
            Err(msg) => first_set(values@) is None && msg@
                == "router API key not set (ROUTER_API_KEY or OPENROUTER_API_KEY)"@,
        },
{
    match first_env(values) {
        Some(v) => Ok(v),
        None => Err("router API key not set (ROUTER_API_KEY or OPENROUTER_API_KEY)".to_owned()),
    }
}

/// `c` is a decimal digit.
pub open spec fn is_digit(c: char) -> bool {
    '0' <= c && c <= '9'
}

/// The value of a decimal digit.
pub open spec fn digit_value(c: char) -> int {
    c as int - '0' as int
}

/// The number that a text of decimal digits stands for.
pub open spec fn digits_value(s: Seq<char>) -> int
    decreases s.len(),
{
    if s.len() == 0 {
        0
    } else {
        digits_value(s.drop_last()) * 10 + digit_value(s.last())
    }
}

/// Every character of `s` is a decimal digit.
pub open spec fn all_digits(s: Seq<char>) -> bool {
    forall|i: int| 0 <= i < s.len() ==> is_digit(#[trigger] s[i])
}

/// The number that a text stands for: digits only, after a plus sign or
/// without one, and no more than the machine can hold.
pub open spec fn parsed_u64(s: Seq<char>) -> Option<u64> {
    let digits = if s.len() > 0 && s[0] == '+' {
        s.drop_first()
    } else {
        s
    };
    if digits.len() > 0 && all_digits(digits) && digits_value(digits) <= u64::MAX {
        Some(digits_value(digits) as u64)
    } else {
        None
    }
}

/// The value of digits never goes down as digits follow.
pub proof fn lemma_digits_grow(s: Seq<char>, n: int)
    requires
        0 <= n <= s.len(),
        all_digits(s),
    ensures
        0 <= digits_value(s.take(n)) <= digits_value(s),
    decreases s.len() - n,
{
    if n < s.len() {
        lemma_digits_grow(s, n + 1);
        assert(s.take(n + 1).drop_last() =~= s.take(n));
        assert(s.take(n + 1).last() == s[n]);
        lemma_digits_nonneg(s.take(n));
    } else {
        assert(s.take(n) =~= s);
        lemma_digits_nonneg(s);
    }
}

/// The value of digits is not negative.
pub proof fn lemma_digits_nonneg(s: Seq<char>)
    requires
        all_digits(s),
    ensures
        digits_value(s) >= 0,
    decreases s.len(),
{
    if s.len() > 0 {
        assert forall|i: int| 0 <= i < s.drop_last().len() implies is_digit(
            #[trigger] s.drop_last()[i],
        ) by {
            assert(s.drop_last()[i] == s[i]);
        }
        lemma_digits_nonneg(s.drop_last());
    }
}

/// The number that a text stands for.
pub fn parse_u64(s: &str) -> (r: Option<u64>)
    ensures
        r == parsed_u64(s@),
{
    let all = chars_of(s);
    let start: usize = if all.len() > 0 && all[0] == '+' {
        1
    } else {
        0
    };
    let digits = crate::text::slice(&all, start, all.len());
    proof {
        if start == 1 {
            assert(digits@ =~= s@.drop_first());
        } else {
            assert(digits@ =~= s@);
        }
    }
    let ghost expected = if s@.len() > 0 && s@[0] == '+' {
        s@.drop_first()
    } else {
        s@
    };
    if digits.len() == 0 {
        return None;
    }
    let mut value: u64 = 0;
    let mut i: usize = 0;
    assert(digits@.take(0) =~= Seq::<char>::empty());
    while i < digits.len()
        invariant
            i <= digits.len(),
            digits@ == expected,
            digits@.len() > 0,
            expected == if s@.len() > 0 && s@[0] == '+' {
                s@.drop_first()
            } else {
                s@
            },
            forall|j: int| 0 <= j < i ==> is_digit(#[trigger] digits@[j]),
            value == digits_value(digits@.take(i as int)),
        decreases digits.len() - i,
    {
        let c = digits[i];
        if !('0' <= c && c <= '9') {
            assert(!is_digit(digits@[i as int]));
            assert(!all_digits(digits@));
            return None;
        }
        let d: u64 = (c as u32 - '0' as u32) as u64;
        proof {
            assert(digits@.take(i + 1).drop_last() =~= digits@.take(i as int));
            assert(digits@.take(i + 1).last() == c);
            assert(d == digit_value(c));
            assert(digits_value(digits@.take(i + 1)) == value * 10 + d);
        }
        let next = match value.checked_mul(10) {
            Some(v) => v.checked_add(d),
            None => None,
        };
        match next {
            Some(v) => {
                value = v;
            },
            None => {
                proof {
                    // what is read so far is beyond the machine already, so
                    // is the whole where it is all digits
                    if all_digits(digits@) {
                        lemma_digits_grow(digits@, i + 1);
                    }
                }
                return None;
            },
        }
        i += 1;
    }
    assert(digits@.take(digits@.len() as int) =~= digits@);
    Some(value)
}

/// The time in seconds that the router is given: what is configured, where
/// that is a number from five to six hundred, else sixty.
pub open spec fn timeout_of(configured: Option<Seq<char>>) -> u64 {
    match configured {
        Some(s) => match parsed_u64(s) {
            Some(n) => if 5 <= n <= 600 {
                n
            } else {
                60
            },
            None => 60,
        },
        None => 60,
    }
}

/// The time in seconds that the router is given.
pub fn timeout_secs(values: &Vec<Option<String>>) -> (r: u64)
    ensures
        r == timeout_of(first_set(values@)),
        5 <= r <= 600,
{
    match first_env(values) {
        Some(s) => match parse_u64(s.as_str()) {
            Some(n) => if n >= 5 && n <= 600 {
                n
            } else {
                60
            },
            None => 60,
        },
        None => 60,
    }
}

/// What the router is sent: the model, the messages, and the demand for an
/// answer in the form of an object.
pub open spec fn request_payload(model: Seq<char>, messages: Seq<JsonView>) -> JsonView {
    JsonView::Object(
        seq![
            ("model"@, JsonView::Text(model)),
            ("messages"@, JsonView::List(messages)),
            (
                "response_format"@,
                JsonView::Object(seq![("type"@, JsonView::Text("json_object"@))]),
            ),
        ],
    )
}

/// The messages that are sent: those given, or one empty message of the
/// user where none is given.
pub open spec fn sent_messages(messages: Seq<JsonView>) -> Seq<JsonView> {
    if messages.len() == 0 {
        seq![crate::api::threads::message("user"@, Seq::<char>::empty())]
    } else {
        messages
    }
}

/// What the router is sent for these messages.
pub fn chat_request(model: &str, messages: Vec<Json>) -> (r: Json)
    ensures
        r@ == request_payload(model@, sent_messages(items_view(messages@))),
{
    let ghost given = items_view(messages@);
    let mut messages = messages;
    if messages.len() == 0 {
        let mut m: Vec<(String, Json)> = Vec::new();
        put(&mut m, "role", Json::text("user"));
        put(&mut m, "content", Json::text(""));
        proof {
            reveal_strlit("");
            assert(""@ =~= Seq::<char>::empty());
            assert(entries_view(m@) =~= seq![
                ("role"@, JsonView::Text("user"@)),
                ("content"@, JsonView::Text(Seq::<char>::empty())),
            ]);
        }
        messages.push(Json::Object(m));
        assert(items_view(messages@) =~= seq![
            crate::api::threads::message("user"@, Seq::<char>::empty()),
        ]);
    }
    let mut f: Vec<(String, Json)> = Vec::new();
    put(&mut f, "type", Json::text("json_object"));
    assert(entries_view(f@) =~= seq![("type"@, JsonView::Text("json_object"@))]);
    let mut e: Vec<(String, Json)> = Vec::new();
    put(&mut e, "model", Json::text(model));
    put(&mut e, "messages", Json::List(messages));
    put(&mut e, "response_format", Json::Object(f));
    assert(entries_view(e@) =~= request_payload(model@, sent_messages(given))->Object_0);
    Json::Object(e)
}

/// The content of the answer of the router: the content of the message of
/// its first choice, `{}` where it has none.
pub open spec fn content_of(body: JsonView) -> Seq<char> {
    let found = match body.get("choices"@) {
        Some(choices) => match choices.item(0) {
            Some(first) => match first.get("message"@) {
                Some(m) => m.text_at("content"@),
                None => None,
            },
            None => None,
        },
        None => None,
    };
    match found {
        Some(c) => c,
        None => "{}"@,
    }
}

/// The content of the answer of the router.
pub fn answer_content(body: &Json) -> (r: String)
    ensures
        r@ == content_of(body@),
{
    let found = match body.get("choices") {
        Some(choices) => match choices.item(0) {
            Some(first) => match first.get("message") {
                Some(m) => m.text_at("content"),
                None => None,
            },
            None => None,
        },
        None => None,
    };
    match found {
        Some(c) => c,
        None => "{}".to_owned(),
    }
}

/// The answer that the content of the router gives: the content itself where
/// it could be read as a structured value, else the content as a reply.
pub fn answer_of(content: &str, parsed: Option<Json>) -> (r: Json)
    ensures
        r@ == match parsed {
            Some(v) => v@,
            None => JsonView::Object(seq![("reply"@, JsonView::Text(content@))]),
        },
{
    match parsed {
        Some(v) => v,
        None => {
            let mut e: Vec<(String, Json)> = Vec::new();
            put(&mut e, "reply", Json::text(content));
            assert(entries_view(e@) =~= seq![("reply"@, JsonView::Text(content@))]);
            Json::Object(e)
        },
    }
}

} // verus!
