use mailproc::display::join;
use mailproc::problem::{Part, Problem};
use mailproc::rule::{Config, HeaderGroup, Rule};

fn words(ws: &[&str]) -> Vec<String> {
    ws.iter().map(|w| w.to_string()).collect()
}

fn sample() -> Rule {
    let mut first = HeaderGroup::new();
    first.insert("From".to_string(), "alice".to_string());
    first.insert("To".to_string(), "bob".to_string());
    let mut second = HeaderGroup::new();
    second.insert("Subject".to_string(), "^Re:".to_string());
    let mut rule = Rule::new();
    rule.headers = Some(vec![first, second]);
    rule.body = Some(vec![words(&["a", "b"]), words(&["c"])]);
    rule.raw = Some(vec![words(&["x"])]);
    rule.action = Some(vec![words(&["cat"])]);
    rule
}

#[test]
fn join_puts_the_separator_between_the_parts() {
    assert_eq!(join(&words(&[]), ", "), "");
    assert_eq!(join(&words(&["a"]), ", "), "a");
    assert_eq!(join(&words(&["a", "b", "c"]), ", "), "a, b, c");
    assert_eq!(join(&words(&["", ""]), "-"), "-");
}

#[test]
fn a_rule_without_predicates_in_words() {
    assert_eq!(Rule::new().to_string(), "headers: ; body: ; raw: ");
}

#[test]
fn a_rule_in_words() {
    assert_eq!(
        sample().to_string(),
        "headers: ((From: alice) AND (To: bob)) OR ((Subject: ^Re:)); body: (a AND b) OR (c); raw: (x)"
    );
}

#[test]
fn empty_parts_and_groups_in_words() {
    let mut rule = Rule::new();
    rule.headers = Some(vec![HeaderGroup::new()]);
    rule.body = Some(vec![]);
    rule.raw = Some(vec![words(&[]), words(&[])]);
    assert_eq!(rule.to_string(), "headers: (); body: ; raw: () OR ()");
}

#[test]
fn problems_in_words() {
    let config = Config::new(1, vec![Rule::new(), sample()]);
    let rule = "headers: ((From: alice) AND (To: bob)) OR ((Subject: ^Re:)); body: (a AND b) OR (c); raw: (x)";
    let say = |p: Problem| config.describe(&p);
    assert_eq!(say(Problem::NotFound { program: "procmail".to_string() }), "procmail not found");
    assert_eq!(say(Problem::BadPattern { pattern: "(".to_string() }), "Could not compile regex (");
    assert_eq!(say(Problem::EmptyAction { rule: 1 }), format!("Empty action for rule {}", rule));
    assert_eq!(say(Problem::EmptyFilter { rule: 1 }), format!("Empty filter for rule {}", rule));
    assert_eq!(
        say(Problem::EmptyPart { rule: 0, part: Part::Headers }),
        "Empty headers set for rule headers: ; body: ; raw: "
    );
    assert_eq!(
        say(Problem::EmptyGroup { rule: 1, part: Part::Body }),
        format!("Empty body set in rule {}", rule)
    );
    assert_eq!(say(Problem::EmptyGroup { rule: 9, part: Part::Raw }), "Empty raw set in rule ");
    assert_eq!(say(Problem::FilterFailed { rule: 1 }), format!("Rule filter failed for rule {}", rule));
    assert_eq!(
        say(Problem::FilterUnparsed { rule: 1 }),
        format!("Could not parse output from filter for rule {}", rule)
    );
    assert_eq!(Part::Headers.name(), "headers");
    assert_eq!(Part::Body.name(), "body");
    assert_eq!(Part::Raw.name(), "raw");
}
