use kbart_harvester::errors::HarvestError;
use kbart_harvester::filename::derive_filename;
use kbart_harvester::headers::{
    header_matches, kbart_header_with_coverage_notes, kbart_header_with_notes, probe_limit,
};
use kbart_harvester::sanitize::sanitize_segment;

#[test]
fn derive_takes_last_segment() {
    let r = derive_filename("https://example.org/data/foo.txt");
    assert_eq!(r, Ok(String::from("foo.txt")));
}

#[test]
fn derive_single_segment() {
    let r = derive_filename("https://host/c.kbart");
    assert_eq!(r, Ok(String::from("c.kbart")));
}

#[test]
fn derive_trailing_slash_is_missing_path() {
    let r = derive_filename("https://host/a/");
    assert_eq!(r, Err(HarvestError::MissingPath));
}

#[test]
fn derive_no_path_is_missing_path() {
    let r = derive_filename("https://host");
    assert_eq!(r, Err(HarvestError::MissingPath));
}

#[test]
fn derive_empty_host_is_missing_path() {
    let r = derive_filename("ftp:///");
    assert_eq!(r, Err(HarvestError::MissingPath));
}

#[test]
fn derive_cannot_be_a_base_is_missing_path() {
    let r = derive_filename("mailto:user@example.org");
    assert_eq!(r, Err(HarvestError::MissingPath));
}

#[test]
fn derive_malformed_is_parse_error() {
    let r = derive_filename("not a url");
    assert_eq!(r, Err(HarvestError::ParseError));
}

#[test]
fn derive_sanitizes_segment() {
    // ':' and '*' are legal raw in a URL path segment; they must not survive
    // into the filename.
    let r = derive_filename("https://host/a/b:c*d.txt");
    assert_eq!(r, Ok(String::from("bcd.txt")));
}

#[test]
fn sanitize_keeps_safe_characters() {
    assert_eq!(sanitize_segment("b.kbart"), "b.kbart");
    assert_eq!(sanitize_segment("report (2024)_v1.tsv"), "report (2024)_v1.tsv");
}

#[test]
fn sanitize_strips_unsafe_characters() {
    assert_eq!(sanitize_segment("a/b\\c:d*e?f\"g<h>i|j"), "abcdefghij");
    assert_eq!(sanitize_segment("tab\tand\nnewline"), "tabandnewline");
    // DEL and the C1 control range are stripped like the C0 range.
    assert_eq!(sanitize_segment("a\u{007F}b\u{0080}c\u{009F}d"), "abcd");
    assert_eq!(sanitize_segment("caf\u{00E9}.tsv"), "caf\u{00E9}.tsv");
}

#[test]
fn sanitize_blocks_traversal() {
    assert_eq!(sanitize_segment(".."), "_");
    assert_eq!(sanitize_segment("."), "_");
    assert_eq!(sanitize_segment("..."), "_");
    assert_eq!(sanitize_segment("*?"), "_");
    assert_eq!(sanitize_segment(""), "_");
}

#[test]
fn sanitize_is_idempotent_on_samples() {
    for s in ["b.kbart", "a/b\\c:d", "..", "", "weird<>name", "...x..."] {
        let once = sanitize_segment(s);
        let twice = sanitize_segment(&once);
        assert_eq!(once, twice);
    }
}

#[test]
fn header_match_accepts_both_layouts() {
    assert!(header_matches(kbart_header_with_notes()));
    assert!(header_matches(kbart_header_with_coverage_notes()));
}

#[test]
fn header_match_accepts_full_body() {
    // A server that ignores the byte range returns the whole document; a
    // prefix match must accept it.
    let body = format!("{}\nSome Journal\t1234-5678\n", kbart_header_with_notes());
    assert!(header_matches(&body));
}

#[test]
fn header_match_rejects_other_text() {
    assert!(!header_matches(""));
    assert!(!header_matches("<html><body>not kbart</body></html>"));
    // Case-sensitive: an upper-cased header is not recognized.
    let upper = kbart_header_with_notes().to_uppercase();
    assert!(!header_matches(&upper));
    // A truncated header is not recognized either.
    let h = kbart_header_with_notes();
    assert!(!header_matches(&h[..h.len() - 1]));
}

#[test]
fn probe_limit_covers_wide_encoding() {
    assert_eq!(probe_limit(), 2 * kbart_header_with_coverage_notes().len());
    assert!(probe_limit() >= 2 * kbart_header_with_notes().len());
}

#[test]
fn error_messages_are_distinct_causes() {
    let messages = [
        HarvestError::MissingPath,
        HarvestError::InvalidFormat,
        HarvestError::ParseError,
        HarvestError::TransportError,
        HarvestError::FilesystemError,
    ]
    .map(|e| e.message());
    for (i, m) in messages.iter().enumerate() {
        assert!(!m.is_empty());
        for other in &messages[i + 1..] {
            assert_ne!(m, other);
        }
    }
    assert_eq!(
        HarvestError::MissingPath.message(),
        "the URL must have a non-empty last path segment to name the file"
    );
}
