use leftwm_client::reply::{classify, split_once_space, Reply, Verdict};

fn parts(token: &str, rest: &str) -> Option<(String, String)> {
    Some((token.to_string(), rest.to_string()))
}

#[test]
fn split_takes_token_and_message() {
    assert_eq!(split_once_space("OK: hello world"), parts("OK:", "hello world"));
}

#[test]
fn split_of_bare_token_is_none() {
    assert_eq!(split_once_space("OK:"), None);
}

#[test]
fn split_without_space_is_none() {
    assert_eq!(split_once_space("done"), None);
    assert_eq!(split_once_space(""), None);
}

#[test]
fn split_keeps_empty_sides() {
    assert_eq!(split_once_space(" x"), parts("", "x"));
    assert_eq!(split_once_space("OK: "), parts("OK:", ""));
    assert_eq!(split_once_space(" "), parts("", ""));
}

#[test]
fn split_stops_at_first_space_only() {
    assert_eq!(split_once_space("a  b c"), parts("a", " b c"));
}

#[test]
fn split_counts_characters_not_bytes() {
    assert_eq!(split_once_space("héllo wörld ✓"), parts("héllo", "wörld ✓"));
    assert_eq!(split_once_space("✓✓ ✓"), parts("✓✓", "✓"));
}

#[test]
fn split_agrees_with_std() {
    for line in ["OK: done", "ERROR: bad arg", "x", "", " ", "a b", "tab\tonly", "ünï cödé here"] {
        let expected = line.split_once(' ').map(|(l, r)| (l.to_string(), r.to_string()));
        assert_eq!(split_once_space(line), expected);
    }
}

#[test]
fn classify_ok() {
    assert_eq!(
        classify("OK: hello world"),
        Reply { verdict: Verdict::Success, text: "hello world".to_string() }
    );
}

#[test]
fn classify_error() {
    assert_eq!(
        classify("ERROR: bad arg"),
        Reply { verdict: Verdict::Failure, text: "bad arg".to_string() }
    );
}

#[test]
fn classify_ok_with_empty_message() {
    assert_eq!(classify("OK: "), Reply { verdict: Verdict::Success, text: String::new() });
}

#[test]
fn classify_bare_token_is_unrecognized() {
    assert_eq!(classify("OK:"), Reply { verdict: Verdict::Unrecognized, text: "OK:".to_string() });
    assert_eq!(
        classify("ERROR:"),
        Reply { verdict: Verdict::Unrecognized, text: "ERROR:".to_string() }
    );
}

#[test]
fn classify_line_without_space_is_kept_whole() {
    assert_eq!(classify("done"), Reply { verdict: Verdict::Unrecognized, text: "done".to_string() });
    assert_eq!(classify(""), Reply { verdict: Verdict::Unrecognized, text: String::new() });
}

#[test]
fn classify_is_exact_about_tokens() {
    for line in ["ok: done", "OK done", "OK:: done", " OK: done", "Error: x", "ERROR bad", "WARN: x y"] {
        assert_eq!(
            classify(line),
            Reply { verdict: Verdict::Unrecognized, text: line.to_string() }
        );
    }
}
