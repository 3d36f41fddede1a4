use std::borrow::Cow;
use twitch_message::escape::{escape_tag, estimate_escape_size, unescape_tag};

#[test]
fn escape_table() {
    assert_eq!(escape_tag(";"), "\\:");
    assert_eq!(escape_tag(" "), "\\s");
    assert_eq!(escape_tag("\\"), "\\\\");
    assert_eq!(escape_tag("\r"), "\\r");
    assert_eq!(escape_tag("\n"), "\\n");
    assert_eq!(escape_tag("a;b c\\d\re\nf"), "a\\:b\\sc\\\\d\\re\\nf");
}

#[test]
fn unescape_table() {
    assert_eq!(unescape_tag("\\:"), ";");
    assert_eq!(unescape_tag("\\s"), " ");
    assert_eq!(unescape_tag("\\\\"), "\\");
    assert_eq!(unescape_tag("\\r"), "\r");
    assert_eq!(unescape_tag("\\n"), "\n");
    assert_eq!(unescape_tag("a\\:b\\sc\\\\d\\re\\nf"), "a;b c\\d\re\nf");
}

#[test]
fn backslash_before_any_other_character_is_dropped() {
    assert_eq!(unescape_tag("\\x\\y"), "xy");
    assert_eq!(unescape_tag("\\é"), "é");
}

#[test]
fn backslash_at_the_end_is_dropped() {
    assert_eq!(unescape_tag("abc\\"), "abc");
    assert_eq!(unescape_tag("\\"), "");
    assert_eq!(unescape_tag("\\\\\\"), "\\");
}

#[test]
fn plain_text_is_not_copied() {
    for input in ["", "abc", "Kappa:123", "ünïcödé/⸝"] {
        assert!(matches!(escape_tag(input), Cow::Borrowed(s) if s == input));
        assert!(matches!(unescape_tag(input), Cow::Borrowed(s) if s == input));
    }
    assert!(matches!(escape_tag("a b"), Cow::Owned(_)));
    assert!(matches!(unescape_tag("a\\sb"), Cow::Owned(_)));
    // reserved for writing, plain for reading
    assert!(matches!(unescape_tag("a b;c"), Cow::Borrowed("a b;c")));
}

#[test]
fn unescape_undoes_escape() {
    for input in [
        "",
        "plain",
        "a;b c\\d\re\nf",
        "\\\\",
        "\\s",
        "ends with backslash\\",
        ";;;   \\\\\\",
        "ünïcödé ; text\n",
    ] {
        assert_eq!(unescape_tag(&escape_tag(input)), input);
    }
}

#[test]
fn estimate_counts_the_reserved() {
    assert_eq!(estimate_escape_size(""), 0);
    assert_eq!(estimate_escape_size("abc"), 0);
    assert_eq!(estimate_escape_size("a;b c\\d\re\nf"), 5);
    assert_eq!(estimate_escape_size("é é"), 1);
    let input = "one two;three";
    assert_eq!(escape_tag(input).chars().count(), input.chars().count() + estimate_escape_size(input));
}

#[test]
fn a_copy_is_made_exactly_where_something_changes() {
    for input in ["", "abc", "a b", ";", "a\\b", "\\", "x\ry", "é\n", "é⸝", "a:b"] {
        let reserved = estimate_escape_size(input);
        let escaped = escape_tag(input);
        assert_eq!(matches!(escaped, Cow::Borrowed(_)), reserved == 0, "{input:?}");
        assert_eq!(escaped.chars().count(), input.chars().count() + reserved);
        let unescaped = unescape_tag(input);
        assert_eq!(matches!(unescaped, Cow::Borrowed(_)), !input.contains('\\'), "{input:?}");
    }
}
