use one_engine::level::{push_fixed, push_plain};
use one_engine::order::is_text_before;
use one_engine::research::{adler32, checksum_text, kind_for, ttl_of};
use one_engine::text::{
    chars_of, contains, find_from, first_line_of, join_path, lines_in, text_of, to_ascii_lowercase,
    trim,
};

fn fixed(x: i64, places: u8) -> String {
    let mut out = Vec::new();
    push_fixed(&mut out, x, places);
    text_of(&out)
}

fn plain(x: i64) -> String {
    let mut out = Vec::new();
    push_plain(&mut out, x);
    text_of(&out)
}

#[test]
fn levels_with_fixed_decimals() {
    assert_eq!(fixed(900_000, 3), "0.900");
    assert_eq!(fixed(1_000_000, 1), "1.0");
    assert_eq!(fixed(0, 1), "0.0");
    assert_eq!(fixed(666_666, 2), "0.67");
    assert_eq!(fixed(333_333, 2), "0.33");
    assert_eq!(fixed(-600_000, 2), "-0.60");
    assert_eq!(fixed(1_500_000, 3), "1.500");
    assert_eq!(fixed(995_000, 2), "1.00");
    assert_eq!(fixed(12_345_678, 0), "12");
    assert_eq!(fixed(123_456, 6), "0.123456");
}

#[test]
fn levels_with_as_few_decimals_as_needed() {
    assert_eq!(plain(1_000_000), "1");
    assert_eq!(plain(0), "0");
    assert_eq!(plain(950_000), "0.95");
    assert_eq!(plain(200_000), "0.2");
    assert_eq!(plain(500_000), "0.5");
    assert_eq!(plain(630_000), "0.63");
    assert_eq!(plain(-250_000), "-0.25");
    assert_eq!(plain(1), "0.000001");
}

#[test]
fn substring_search() {
    let hay = chars_of("say hello, hello");
    let needle = chars_of("hello");
    assert!(contains(&hay, &needle));
    assert_eq!(find_from(&hay, &needle, 0), Some(4));
    assert_eq!(find_from(&hay, &needle, 5), Some(11));
    assert_eq!(find_from(&hay, &needle, 12), None);
    assert!(contains(&hay, &chars_of("")));
    assert!(!contains(&chars_of(""), &needle));
}

#[test]
fn trimming_and_lowercase() {
    assert_eq!(text_of(&trim(&chars_of("  a b \n"))), "a b");
    assert_eq!(text_of(&trim(&chars_of(" \t\n"))), "");
    assert_eq!(text_of(&trim(&chars_of("x"))), "x");
    assert_eq!(text_of(&to_ascii_lowercase(&chars_of("AbC-Z09É"))), "abc-z09É");
}

#[test]
fn lines_of_a_text() {
    assert_eq!(lines_in(&chars_of("")), 0);
    assert_eq!(lines_in(&chars_of("a")), 1);
    assert_eq!(lines_in(&chars_of("a\n")), 1);
    assert_eq!(lines_in(&chars_of("a\nb")), 2);
    assert_eq!(lines_in(&chars_of("a\n\n")), 2);
    assert_eq!(text_of(&first_line_of(&chars_of("first\r\nsecond"))), "first");
    assert_eq!(text_of(&first_line_of(&chars_of("only"))), "only");
    assert_eq!(text_of(&first_line_of(&chars_of(""))), "");
}

#[test]
fn paths_are_joined_with_one_separator() {
    assert_eq!(join_path(".", "runs/meta3-build"), "./runs/meta3-build");
    assert_eq!(join_path("out/", "index.html"), "out/index.html");
    assert_eq!(join_path("", "index.html"), "index.html");
}

#[test]
fn order_of_strings() {
    let lt = |a: &str, b: &str| is_text_before(&chars_of(a), &chars_of(b));
    assert!(lt("a", "b"));
    assert!(lt("", "a"));
    assert!(lt("ab", "abc"));
    assert!(!lt("abc", "ab"));
    assert!(!lt("a", "a"));
    assert!(lt("Z", "a"));
    assert_eq!(lt("2024-01-02", "2024-01-10"), "2024-01-02" < "2024-01-10");
}

#[test]
fn adler32_of_known_texts() {
    assert_eq!(adler32(b""), 1);
    assert_eq!(adler32(b"a"), 0x0062_0062);
    assert_eq!(adler32(b"Wikipedia"), 0x11E6_0398);
    assert_eq!(checksum_text(b"Wikipedia"), "11e60398");
    assert_eq!(checksum_text(b""), "00000001");
}

#[test]
fn kinds_of_files() {
    assert_eq!(kind_for("/repo/Prompts/x.md"), "prompt");
    assert_eq!(kind_for("/repo/policies/x.yaml"), "policy");
    assert_eq!(kind_for("/repo/schemas/x.json"), "schema");
    assert_eq!(kind_for("/repo/trace/golden/a.json"), "trace");
    assert_eq!(kind_for("/repo/README.md"), "doc");
    assert_eq!(kind_for("/repo/docs/a.txt"), "doc");
    assert_eq!(kind_for("/repo/data.YML"), "dataset");
    assert_eq!(kind_for("/repo/main.rs"), "other");
    assert_eq!(ttl_of("trace/golden/a.json"), 0);
    assert_eq!(ttl_of("docs/a.md"), 1_209_600);
}
