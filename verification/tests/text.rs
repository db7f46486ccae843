use integration_tests::text::{
    bytes_eq, contains, eq_ignore_ascii_case, file_contains, is_absolute,
};

#[test]
fn contains_finds_a_needle_wherever_it_stands() {
    assert!(contains(b"needle in a haystack", b"needle"));
    assert!(contains(b"a needle in a haystack", b"needle"));
    assert!(contains(b"haystack with needle", b"needle"));
    assert!(contains(b"needle", b"needle"));
}

#[test]
fn contains_rejects_what_is_not_there() {
    assert!(!contains(b"haystack", b"needle"));
    assert!(!contains(b"needl", b"needle"));
    assert!(!contains(b"abcab", b"abd"));
    assert!(!contains(b"", b"a"));
}

#[test]
fn contains_handles_overlapping_starts() {
    assert!(contains(b"aaaab", b"aaab"));
    assert!(contains(b"ababac", b"abac"));
    assert!(!contains(b"aaaaa", b"aaab"));
}

#[test]
fn the_empty_needle_is_everywhere() {
    assert!(contains(b"haystack", b""));
    assert!(contains(b"", b""));
}

#[test]
fn file_contains_looks_for_text_in_bytes() {
    let artifact = b"var Module = {}; Module['CustomExportNameAsmJs'] = 1;";
    assert!(file_contains(artifact, "CustomExportNameAsmJs"));
    assert!(!file_contains(artifact, "CustomExportNameWasm"));
    assert!(file_contains("gr\u{fc}n alert('THIS IS A TEST'); x".as_bytes(), "alert('THIS IS A TEST');"));
    assert!(file_contains("gr\u{fc}n".as_bytes(), "\u{fc}"));
}

#[test]
fn bytes_eq_compares_length_and_content() {
    assert!(bytes_eq(b"", b""));
    assert!(bytes_eq(b"{}", b"{}"));
    assert!(!bytes_eq(b"{}", b"{} "));
    assert!(!bytes_eq(b"abc", b"abd"));
    assert!(!bytes_eq(b"abc", b"xbc"));
}

#[test]
fn case_of_ascii_letters_is_ignored() {
    assert!(eq_ignore_ascii_case(b"Text/HTML", b"text/html"));
    assert!(eq_ignore_ascii_case(b"text/html", b"TEXT/HTML"));
    assert!(eq_ignore_ascii_case(b"", b""));
    assert!(!eq_ignore_ascii_case(b"text/html", b"text/htm"));
    assert!(!eq_ignore_ascii_case(b"text/html", b"text/xtml"));
}

#[test]
fn only_letters_are_folded() {
    assert!(!eq_ignore_ascii_case(b"@", b"`"));
    assert!(!eq_ignore_ascii_case(b"[", b"{"));
    assert!(!eq_ignore_ascii_case(&[0xc4], &[0xe4]));
    assert!(eq_ignore_ascii_case(b"AZaz", b"azAZ"));
}

#[test]
fn a_leading_slash_makes_a_path_absolute() {
    assert!(is_absolute("/"));
    assert!(is_absolute("/etc/passwd"));
    assert!(!is_absolute(""));
    assert!(!is_absolute("target/deploy"));
    assert!(!is_absolute("child/target/deploy"));
    assert!(!is_absolute("\u{fc}/x"));
}
