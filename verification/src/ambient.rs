//! What the kernel takes from its surroundings: the clock, time stamps,
//! fresh identifiers, shell quoting, digests and regular expressions. Each
//! is a call into a library outside this crate; what is stated of it here
//! is believed, not proved.

use vstd::prelude::*;

verus! {

/// A reading of the clock: seconds and nanoseconds since the Unix epoch, and
/// the same instant as an RFC 3339 time stamp.
pub struct Moment {
    pub secs: i64,
    pub nanos: u32,
    pub stamp: String,
}

/// `chrono::Utc::now` reads the system clock. Nothing is promised of the
/// reading.
#[verifier::external_body]
pub(crate) fn clock_now() -> (m: Moment) {
    let t = chrono::Utc::now();
    Moment { secs: t.timestamp(), nanos: t.timestamp_subsec_nanos(), stamp: t.to_rfc3339() }
}

/// The instant that an RFC 3339 time stamp names, in seconds and nanoseconds
/// since the Unix epoch; nothing where the text is no such time stamp.
pub uninterp spec fn rfc3339_instant(ts: Seq<char>) -> Option<(i64, u32)>;

/// `chrono::DateTime::parse_from_rfc3339` parses an RFC 3339 date and time;
/// whether it succeeds and the instant it yields depend on the text alone.
#[verifier::external_body]
pub(crate) fn parse_rfc3339(ts: &str) -> (r: Option<(i64, u32)>)
    ensures
        r == rfc3339_instant(ts@),
{
    match chrono::DateTime::parse_from_rfc3339(ts) {
        Ok(t) => Some((t.timestamp(), t.timestamp_subsec_nanos())),
        Err(_) => None,
    }
}

/// `c` is a decimal digit or one of the letters `a` to `f`.
pub open spec fn lower_hex(c: char) -> bool {
    ('0' <= c && c <= '9') || ('a' <= c && c <= 'f')
}

/// The shape of an identifier in hyphenated form: 36 characters, hyphens at
/// four fixed places, lowercase hexadecimal digits everywhere else.
pub open spec fn hyphenated(s: Seq<char>) -> bool {
    &&& s.len() == 36
    &&& forall|i: int|
        0 <= i < 36 ==> if i == 8 || i == 13 || i == 18 || i == 23 {
            #[trigger] s[i] == '-'
        } else {
            lower_hex(s[i])
        }
}

/// `uuid::Uuid::new_v4` draws a random identifier; written out it has the
/// hyphenated lowercase form. Which identifier comes is left open.
#[verifier::external_body]
pub(crate) fn fresh_uuid() -> (r: String)
    ensures
        hyphenated(r@),
{
    uuid::Uuid::new_v4().to_string()
}

/// `c` needs no quoting in a shell: it is an ASCII letter or digit or one
/// of `-`, `_`, `=`, `/`, `,`, `.` and `+`.
pub open spec fn shell_plain(c: char) -> bool {
    ('a' <= c && c <= 'z') || ('A' <= c && c <= 'Z') || ('0' <= c && c <= '9') || c == '-' || c
        == '_' || c == '=' || c == '/' || c == ',' || c == '.' || c == '+'
}

/// Every character of `s` needs no quoting.
pub open spec fn all_shell_plain(s: Seq<char>) -> bool {
    forall|i: int| 0 <= i < s.len() ==> shell_plain(#[trigger] s[i])
}

/// A text as it stands between single quotes: a single quote and an
/// exclamation mark leave the quotes, with a backslash before them.
pub open spec fn within_quotes(s: Seq<char>) -> Seq<char>
    decreases s.len(),
{
    if s.len() == 0 {
        Seq::<char>::empty()
    } else {
        within_quotes(s.drop_last()) + (if s.last() == '\'' || s.last() == '!' {
            seq!['\'', '\\', s.last(), '\'']
        } else {
            seq![s.last()]
        })
    }
}

/// A text quoted for a POSIX shell, so that the shell reads it as one word:
/// the text itself where it is not empty and none of its characters needs
/// quoting, else the text between single quotes.
pub open spec fn shell_quoted(s: Seq<char>) -> Seq<char> {
    if s.len() > 0 && all_shell_plain(s) {
        s
    } else {
        seq!['\''] + within_quotes(s) + seq!['\'']
    }
}

/// `shell_escape::unix::escape` returns a text as it is where it is not
/// empty and holds allowed characters only; else it puts the text between
/// single quotes and writes `'\c'` for each single quote or exclamation
/// mark `c` in it.
#[verifier::external_body]
pub(crate) fn shell_quote(s: &str) -> (r: String)
    ensures
        r@ == shell_quoted(s@),
{
    shell_escape::unix::escape(s.into()).into_owned()
}

/// The SHA-256 digest of a sequence of bytes, in lowercase hexadecimal.
pub uninterp spec fn sha256_hex(bytes: Seq<u8>) -> Seq<char>;

/// `sha2::Sha256::digest` computes the SHA-256 digest of the bytes; it is
/// written out in lowercase hexadecimal.
#[verifier::external_body]
pub(crate) fn sha256_hex_of(bytes: &[u8]) -> (r: String)
    ensures
        r@ == sha256_hex(bytes@),
{
    format!("{:x}", <sha2::Sha256 as sha2::Digest>::digest(bytes))
}

/// The text `text` with every match of the regular expression `pattern`
/// replaced by `replacement`, in which `$1` and `${1}` stand for the first
/// group of the match; nothing where `pattern` is no regular expression.
pub uninterp spec fn regex_replaced(
    pattern: Seq<char>,
    text: Seq<char>,
    replacement: Seq<char>,
) -> Option<Seq<char>>;

/// `regex::Regex::new` compiles the pattern, and `regex::Regex::replace_all`
/// replaces all matches that do not overlap; both depend on their arguments
/// alone.
#[verifier::external_body]
pub(crate) fn regex_replace_all(pattern: &str, text: &str, replacement: &str) -> (r: Option<
    String,
>)
    ensures
        match r {
            Some(out) => regex_replaced(pattern@, text@, replacement@) == Some(out@),
            None => regex_replaced(pattern@, text@, replacement@) is None,
        },
{
    match regex::Regex::new(pattern) {
        Ok(re) => Some(re.replace_all(text, replacement).into_owned()),
        Err(_) => None,
    }
}

/// Where the first match of the regular expression `pattern` stands in
/// `text`: the byte offsets of its start and its end. `Some(None)` where
/// there is no match, nothing where `pattern` is no regular expression.
pub uninterp spec fn regex_first(pattern: Seq<char>, text: Seq<char>) -> Option<
    Option<(usize, usize)>,
>;

/// `regex::Regex::find` returns the leftmost match, with its byte offsets
/// in the text.
#[verifier::external_body]
pub(crate) fn regex_find(pattern: &str, text: &str) -> (r: Option<Option<(usize, usize)>>)
    ensures
        r == regex_first(pattern@, text@),
{
    match regex::Regex::new(pattern) {
        Ok(re) => Some(re.find(text).map(|m| (m.start(), m.end()))),
        Err(_) => None,
    }
}

/// A text as the debug form of a string shows it: between double quotes,
/// with what cannot stand there escaped.
pub uninterp spec fn debug_quoted(s: Seq<char>) -> Seq<char>;

/// The `Debug` form of `str` writes the text between double quotes and
/// escapes quotes, backslashes and characters that do not print; the result
/// depends on the text alone.
#[verifier::external_body]
pub(crate) fn debug_quote(s: &str) -> (r: String)
    ensures
        r@ == debug_quoted(s@),
{
    format!("{:?}", s)
}

/// The matches of the regular expression `pattern` in `text` that do not
/// overlap, from the left; nothing where `pattern` is no regular
/// expression.
pub uninterp spec fn regex_all(pattern: Seq<char>, text: Seq<char>) -> Option<Seq<Seq<char>>>;

/// `regex::Regex::find_iter` yields the successive matches that do not
/// overlap, each as the part of the text that it covers.
#[verifier::external_body]
pub(crate) fn regex_find_all(pattern: &str, text: &str) -> (r: Option<Vec<String>>)
    ensures
        match r {
            Some(found) => regex_all(pattern@, text@) == Some(crate::text::views(found@)),
            None => regex_all(pattern@, text@) is None,
        },
{
    match regex::Regex::new(pattern) {
        Ok(re) => Some(re.find_iter(text).map(|m| m.as_str().to_string()).collect()),
        Err(_) => None,
    }
}

/// What the group named `group` covers in each of the matches of the
/// regular expression `pattern` in `text`, nothing for a match in which
/// the group takes no part; nothing at all where `pattern` is no regular
/// expression.
pub uninterp spec fn regex_group(pattern: Seq<char>, text: Seq<char>, group: Seq<char>) -> Option<
    Seq<Option<Seq<char>>>,
>;

/// What a list of optional texts holds.
pub open spec fn opt_views(found: Seq<Option<String>>) -> Seq<Option<Seq<char>>> {
    Seq::new(found.len(), |i: int| crate::text::opt_view(found[i]))
}

/// `regex::Regex::captures_iter` yields the groups of the successive
/// matches that do not overlap, and `regex::Captures::name` the part of the
/// text that the group of that name covers.
#[verifier::external_body]
pub(crate) fn regex_group_all(pattern: &str, text: &str, group: &str) -> (r: Option<
    Vec<Option<String>>,
>)
    ensures
        match r {
            Some(found) => regex_group(pattern@, text@, group@) == Some(opt_views(found@)),
            None => regex_group(pattern@, text@, group@) is None,
        },
{
    match regex::Regex::new(pattern) {
        Ok(re) => Some(
            re.captures_iter(text).map(|c| c.name(group).map(|m| m.as_str().to_string())).collect(),
        ),
        Err(_) => None,
    }
}

/// What is wrong with `pattern` as a regular expression, in the words of
/// the compiler of regular expressions; nothing where it is one.
pub uninterp spec fn regex_fault(pattern: Seq<char>) -> Option<Seq<char>>;

/// `regex::Regex::new` compiles the pattern or returns an error, whose
/// `Display` form says what is wrong; both depend on the pattern alone.
#[verifier::external_body]
pub(crate) fn regex_fault_of(pattern: &str) -> (r: Option<String>)
    ensures
        crate::text::opt_view(r) == regex_fault(pattern@),
{
    match regex::Regex::new(pattern) {
        Ok(_) => None,
        Err(e) => Some(e.to_string()),
    }
}

} // verus!
