use pastebot::text::{contains, push_decimal, to_ascii_lowercase};

fn decimal(n: u64) -> String {
    let mut s = String::new();
    push_decimal(&mut s, n);
    s
}

#[test]
fn decimal_of_zero_is_one_digit() {
    assert_eq!(decimal(0), "0");
}

#[test]
fn decimal_matches_display() {
    for n in [1u64, 9, 10, 99, 100, 975460814007963738, u64::MAX] {
        assert_eq!(decimal(n), n.to_string());
    }
}

#[test]
fn decimal_appends_to_existing_text() {
    let mut s = String::from("id=");
    push_decimal(&mut s, 42);
    assert_eq!(s, "id=42");
}

#[test]
fn lowercase_touches_only_ascii_capitals() {
    assert_eq!(to_ascii_lowercase("Text/Plain; CharSet=UTF-8"), "text/plain; charset=utf-8");
    assert_eq!(to_ascii_lowercase("ÄBC-xyz"), "Äbc-xyz");
    assert_eq!(to_ascii_lowercase(""), "");
}

#[test]
fn contains_finds_runs() {
    assert!(contains("text/plain; charset=utf-8", "charset=utf"));
    assert!(!contains("text/plain", "charset=utf"));
    assert!(contains("abc", ""));
    assert!(!contains("", "a"));
    assert!(contains("aab", "ab"));
    assert!(!contains("charset=ut", "charset=utf"));
}
