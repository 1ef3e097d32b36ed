use mailproc::matcher::Match;
use mailproc::message::MessageView;
use mailproc::problem::Problem;
use mailproc::rule::{HeaderGroup, Rule};

fn text(s: &str) -> String {
    s.to_string()
}

fn message(headers: &[(&str, &str)], body: Option<&str>) -> MessageView {
    MessageView {
        headers: headers.iter().map(|(k, v)| (text(k), text(v))).collect(),
        body: body.map(text),
    }
}

fn group(entries: &[(&str, &str)]) -> HeaderGroup {
    let mut g = HeaderGroup::new();
    for (name, pattern) in entries {
        g.insert(text(name), text(pattern));
    }
    g
}

fn patterns(groups: &[&[&str]]) -> Option<Vec<Vec<String>>> {
    Some(groups.iter().map(|g| g.iter().map(|p| text(p)).collect()).collect())
}

fn yes() -> Match {
    Match { headers: true, body: true, raw: true }
}

#[test]
fn a_rule_without_predicates_matches_every_message() {
    let rule = Rule::new();
    let found = rule.evaluate(&message(&[], None), b"");
    assert_eq!(found.verdict, yes());
    assert!(found.verdict.matched());
    assert!(found.problems.is_empty());
    let found = rule.evaluate(&message(&[("Subject", "x")], Some("body")), b"\xff\x00raw");
    assert!(found.verdict.matched());
}

#[test]
fn matched_is_the_conjunction_of_the_three_parts() {
    for headers in [false, true] {
        for body in [false, true] {
            for raw in [false, true] {
                let m = Match { headers, body, raw };
                assert_eq!(m.matched(), headers && body && raw);
            }
        }
    }
}

#[test]
fn a_header_group_holds_only_if_every_entry_holds() {
    let m = message(&[("From", "alice@example.org"), ("Subject", "Invoice 42")], Some(""));
    let mut rule = Rule::new();
    rule.headers = Some(vec![group(&[("From", "^alice@"), ("Subject", "Invoice [0-9]+")])]);
    assert!(rule.evaluate(&m, b"").verdict.matched());
    rule.headers = Some(vec![group(&[("From", "^alice@"), ("Subject", "Receipt")])]);
    let found = rule.evaluate(&m, b"");
    assert_eq!(found.verdict, Match { headers: false, body: true, raw: true });
    assert!(!found.verdict.matched());
}

#[test]
fn one_header_group_that_holds_is_enough() {
    let m = message(&[("From", "bob@example.org")], Some(""));
    let mut rule = Rule::new();
    rule.headers = Some(vec![group(&[("From", "^alice@")]), group(&[("From", "^bob@")])]);
    assert!(rule.evaluate(&m, b"").verdict.headers);
    rule.headers = Some(vec![group(&[("From", "^alice@")]), group(&[("From", "^carol@")])]);
    assert!(!rule.evaluate(&m, b"").verdict.headers);
}

#[test]
fn a_header_that_the_message_lacks_fails_its_entry() {
    let m = message(&[("From", "bob@example.org")], Some(""));
    let mut rule = Rule::new();
    rule.headers = Some(vec![group(&[("X-Spam", ".*")])]);
    assert!(!rule.evaluate(&m, b"").verdict.headers);
}

#[test]
fn header_names_are_found_whatever_their_case() {
    let m = message(&[("SUBJECT", "hello")], Some(""));
    let mut rule = Rule::new();
    rule.headers = Some(vec![group(&[("subject", "^hello$")])]);
    assert!(rule.evaluate(&m, b"").verdict.headers);
}

#[test]
fn only_the_first_header_of_a_name_is_tried() {
    let m = message(&[("Received", "first"), ("Received", "second")], Some(""));
    let mut rule = Rule::new();
    rule.headers = Some(vec![group(&[("Received", "second")])]);
    assert!(!rule.evaluate(&m, b"").verdict.headers);
    rule.headers = Some(vec![group(&[("Received", "first")])]);
    assert!(rule.evaluate(&m, b"").verdict.headers);
}

#[test]
fn a_header_pattern_that_does_not_compile_fails_its_group_and_is_reported() {
    let m = message(&[("From", "alice"), ("To", "bob")], Some(""));
    let mut rule = Rule::new();
    rule.headers = Some(vec![group(&[("From", "alice"), ("To", "(")])]);
    let found = rule.evaluate(&m, b"");
    assert!(!found.verdict.headers);
    assert_eq!(found.problems, vec![Problem::BadPattern { pattern: text("(") }]);
    // Another group can still carry the part.
    rule.headers = Some(vec![group(&[("To", "(")]), group(&[("From", "alice")])]);
    let found = rule.evaluate(&m, b"");
    assert!(found.verdict.headers);
    assert_eq!(found.problems, vec![Problem::BadPattern { pattern: text("(") }]);
}

#[test]
fn two_body_groups_are_alternatives() {
    let mut rule = Rule::new();
    rule.body = patterns(&[&["A"], &["B"]]);
    assert!(rule.evaluate(&message(&[], Some("only B here")), b"").verdict.matched());
    assert!(rule.evaluate(&message(&[], Some("A and B")), b"").verdict.matched());
    assert!(rule.evaluate(&message(&[], Some("only A here")), b"").verdict.matched());
    assert!(!rule.evaluate(&message(&[], Some("neither")), b"").verdict.matched());
}

#[test]
fn the_patterns_of_one_body_group_must_all_match() {
    let mut rule = Rule::new();
    rule.body = patterns(&[&["A", "B"]]);
    assert!(rule.evaluate(&message(&[], Some("A and B")), b"").verdict.body);
    assert!(!rule.evaluate(&message(&[], Some("only A here")), b"").verdict.body);
}

#[test]
fn a_body_that_cannot_be_decoded_fails_every_body_group() {
    let mut rule = Rule::new();
    rule.body = patterns(&[&[".*"], &[""]]);
    let found = rule.evaluate(&message(&[], None), b"anything");
    assert_eq!(found.verdict, Match { headers: true, body: false, raw: true });
}

#[test]
fn a_part_without_groups_never_holds_and_an_empty_group_always_does() {
    let m = message(&[], Some("text"));
    let mut rule = Rule::new();
    rule.body = patterns(&[]);
    assert!(!rule.evaluate(&m, b"").verdict.body);
    rule.body = patterns(&[&[]]);
    assert!(rule.evaluate(&m, b"").verdict.body);
    let mut rule = Rule::new();
    rule.raw = patterns(&[]);
    assert!(!rule.evaluate(&m, b"").verdict.raw);
    rule.raw = patterns(&[&[]]);
    assert!(rule.evaluate(&m, b"").verdict.raw);
    let mut rule = Rule::new();
    rule.headers = Some(vec![]);
    assert!(!rule.evaluate(&m, b"").verdict.headers);
    rule.headers = Some(vec![HeaderGroup::new()]);
    assert!(rule.evaluate(&m, b"").verdict.headers);
}

#[test]
fn raw_patterns_are_tried_on_bytes_that_are_no_text() {
    let mut rule = Rule::new();
    rule.raw = patterns(&[&[r"(?-u)\xff\x00+end"]]);
    assert!(rule.evaluate(&message(&[], None), b"start\xff\x00\x00end").verdict.matched());
    assert!(!rule.evaluate(&message(&[], None), b"start\xfe\x00\x00end").verdict.matched());
}

#[test]
fn raw_patterns_see_what_the_decoded_body_hides() {
    let raw = "Subject: parts\n\
Content-Type: multipart/mixed; boundary=frontier\n\
\n\
preamble\n\
--frontier\n\
Content-Type: text/plain\n\
\n\
hidden-marker\n\
--frontier--\n"
        .as_bytes();
    let m = MessageView::parse(raw).expect("the message parses");
    let mut by_raw = Rule::new();
    by_raw.raw = patterns(&[&["hidden-marker"]]);
    assert!(by_raw.evaluate(&m, raw).verdict.matched());
    let mut by_body = Rule::new();
    by_body.body = patterns(&[&["hidden-marker"]]);
    assert!(!by_body.evaluate(&m, raw).verdict.matched());
    // The raw verdict does not depend on the message view at all.
    let other = message(&[], None);
    assert_eq!(by_raw.evaluate(&other, raw).verdict.raw, by_raw.evaluate(&m, raw).verdict.raw);
}

#[test]
fn every_pattern_that_does_not_compile_is_reported_in_order() {
    let mut rule = Rule::new();
    rule.headers = Some(vec![group(&[("A", "[")]), group(&[("B", "ok"), ("C", "(?P<")])]);
    rule.body = patterns(&[&["fine", "*"], &["+"]]);
    rule.raw = patterns(&[&["(?-u)\\xff"], &["a{2}"], &["(a"]]);
    let found = rule.evaluate(&message(&[], Some("fine")), b"");
    let bad = |p: &str| Problem::BadPattern { pattern: text(p) };
    assert_eq!(found.problems, vec![bad("["), bad("(?P<"), bad("*"), bad("+"), bad("(a")]);
    assert!(!found.verdict.matched());
}

#[test]
fn the_order_of_entries_and_of_groups_does_not_change_the_verdict() {
    let messages = [
        message(&[("From", "alice"), ("To", "bob")], Some("")),
        message(&[("From", "alice")], Some("")),
        message(&[("To", "bob")], Some("")),
        message(&[], Some("")),
    ];
    for m in &messages {
        let mut one = Rule::new();
        one.headers = Some(vec![group(&[("From", "alice"), ("To", "bob")]), group(&[("To", "carol")])]);
        let mut other = Rule::new();
        other.headers = Some(vec![group(&[("To", "carol")]), group(&[("To", "bob"), ("From", "alice")])]);
        assert_eq!(one.evaluate(m, b"").verdict, other.evaluate(m, b"").verdict);
    }
}
