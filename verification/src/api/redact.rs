//! Redaction: what is taken out of texts before they are stored or shown.

use vstd::prelude::*;
use crate::ambient::{regex_replace_all, regex_replaced};

verus! {

/// The pattern of an API key in a header line.
pub open spec fn api_key_pattern() -> Seq<char> {
    "(?i)(x-api-key\\s*[:=]\\s*)([^\\s\"'\\\\]+)"@
}

/// The pattern of a bearer token in a header line.
pub open spec fn bearer_pattern() -> Seq<char> {
    "(?i)(authorization\\s*:\\s*bearer\\s+)([^\\s\"'\\\\]+)"@
}

/// The pattern of a secret key.
pub open spec fn secret_key_pattern() -> Seq<char> {
    "sk-[A-Za-z0-9_-]{10,}"@
}

/// One pass of redaction: every match of `pattern` replaced; the text as it
/// is where the pattern cannot be used.
pub open spec fn pass(pattern: Seq<char>, text: Seq<char>, replacement: Seq<char>) -> Seq<char> {
    match regex_replaced(pattern, text, replacement) {
        Some(out) => out,
        None => text,
    }
}

/// A text after redaction: API keys and bearer tokens in header lines are
/// replaced behind their label, secret keys behind their prefix.
pub open spec fn redacted(s: Seq<char>) -> Seq<char> {
    pass(
        secret_key_pattern(),
        pass(bearer_pattern(), pass(api_key_pattern(), s, "${1}[REDACTED]"@), "${1}[REDACTED]"@),
        "sk-[REDACTED]"@,
    )
}

/// One pass of redaction.
fn redact_pass(pattern: &str, text: String, replacement: &str) -> (r: String)
    ensures
        r@ == pass(pattern@, text@, replacement@),
{
    match regex_replace_all(pattern, text.as_str(), replacement) {
        Some(out) => out,
        None => text,
    }
}

/// A text after redaction.
pub fn redact(s: &str) -> (r: String)
    ensures
        r@ == redacted(s@),
{
    let out = redact_pass(
        "(?i)(x-api-key\\s*[:=]\\s*)([^\\s\"'\\\\]+)",
        s.to_owned(),
        "${1}[REDACTED]",
    );
    let out = redact_pass(
        "(?i)(authorization\\s*:\\s*bearer\\s+)([^\\s\"'\\\\]+)",
        out,
        "${1}[REDACTED]",
    );
    redact_pass("sk-[A-Za-z0-9_-]{10,}", out, "sk-[REDACTED]")
}

} // verus!
