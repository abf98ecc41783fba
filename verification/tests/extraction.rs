use cio::extract::{clean_capture, first_answer, parse_question, BoundaryPair, ExtractError};

fn pair(start: &str, end: &str) -> BoundaryPair {
    BoundaryPair { start: start.to_string(), end: end.to_string() }
}

#[test]
fn work_samples_between_headings() {
    let doc = "Work sample(s): Did the thing.\n\nWriting samples: wrote a lot";
    let got = parse_question(r"Work sample\(s\)", "Writing samples", doc);
    assert_eq!(got, Ok("Did the thing.".to_string()));
}

#[test]
fn empty_document_gives_empty_answer() {
    assert_eq!(parse_question(r"Work sample\(s\)", "Writing samples", ""), Ok(String::new()));
    // Not even the pattern is looked at.
    assert_eq!(parse_question("(", ")", ""), Ok(String::new()));
}

#[test]
fn no_match_gives_empty_answer() {
    assert_eq!(parse_question("Alpha", "Omega", "nothing of the kind"), Ok(String::new()));
}

#[test]
fn invalid_pattern_is_an_error() {
    assert_eq!(parse_question("(", "Omega", "some text"), Err(ExtractError::InvalidPattern));
}

#[test]
fn adjacent_boundaries_give_empty_answer() {
    assert_eq!(parse_question("Start", "End", "Start   \n End"), Ok(String::new()));
    assert_eq!(parse_question("Start", "End", "StartEnd"), Ok(String::new()));
}

#[test]
fn capture_is_cleaned() {
    assert_eq!(clean_capture(":  answer  "), "answer");
    assert_eq!(clean_capture("  : answer"), "answer");
    assert_eq!(clean_capture("::answer"), ":answer");
    assert_eq!(clean_capture("________________\nOxide Candidate Materials: Technical Program Manager\nreal text"), "real text");
    assert_eq!(clean_capture("Oxide Candidate Materials x Work sample(s) y"), "x  y");
    assert_eq!(clean_capture("   \n\t "), "");
}

#[test]
fn boilerplate_joined_by_a_removal_is_taken_out_too() {
    // Taking the heading out joins two short rules into a long one.
    assert_eq!(clean_capture("________Work sample(s)________"), "");
    assert_eq!(clean_capture("WWork sample(s)ork sample(s)"), "");
    assert_eq!(clean_capture("a ________Work sample(s)________ b"), "a  b");
    assert_eq!(
        clean_capture("Oxide Candidate Oxide Candidate MaterialsMaterials: Technical Program Manager!"),
        "!"
    );
    assert_eq!(clean_capture("________________________________________"), "________");
}

#[test]
fn answers_hold_no_boilerplate() {
    let boilerplate = [
        "________________",
        "Oxide Candidate Materials: Technical Program Manager",
        "Oxide Candidate Materials",
        "Work sample(s)",
    ];
    let doc = "Start: ________Oxide Candidate Work sample(s)Materials________ kept WWork sample(s)ork sample(s) End";
    let answer = parse_question("Start", "End", doc).unwrap();
    assert_eq!(answer, "kept");
    for b in boilerplate {
        assert!(!answer.contains(b));
        for c in boilerplate {
            let joined = format!("{}{}{}", &b[..3], c, &b[3..]);
            assert!(!clean_capture(&joined).contains(b));
            assert!(!clean_capture(&joined).contains(c));
        }
    }
}

#[test]
fn fallback_takes_the_first_answer() {
    let doc = "Second heading: from the second\nStop";
    let chain = vec![pair("First heading", "Stop"), pair("Second heading", "Stop")];
    let direct = parse_question("Second heading", "Stop", doc);
    assert_eq!(first_answer(&chain, doc), direct);
    assert_eq!(direct, Ok("from the second".to_string()));
    let both = vec![pair("Second", "Stop"), pair("Second heading", "Stop")];
    assert_eq!(first_answer(&both, doc), Ok("heading: from the second".to_string()));
    assert_eq!(first_answer(&Vec::new(), doc), Ok(String::new()));
}

#[test]
fn odd_patterns_are_taken_in_stride() {
    let doc = "a\u{0}b (c) [d] {e} \\ \u{1F600} end";
    for (start, end) in [
        ("", ""),
        ("a", ""),
        ("", "end"),
        ("(a)", "end"),
        ("(x)?a", "end"),
        ("[", "]"),
        ("a{1000000}", ""),
        ("(?P<n>", ")"),
        ("\\", ""),
        ("(?i)A", "END"),
        ("x*", "y*"),
    ] {
        let got = parse_question(start, end, doc);
        if let Ok(answer) = &got {
            assert_eq!(answer.trim(), answer);
        }
        assert_eq!(parse_question(start, end, ""), Ok(String::new()));
    }
    // A group of the start pattern that takes no part in the match gives
    // nothing to clean.
    assert_eq!(parse_question("(x)?a", "end", doc), Ok(String::new()));
    // A group of the start pattern comes first and is what is captured.
    assert_eq!(parse_question("(a)", "end", doc), Ok("a".to_string()));
}
