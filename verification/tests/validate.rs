use mailproc::job::{ExitOutcome, Job};
use mailproc::problem::{Part, Problem};
use mailproc::rule::{Config, HeaderGroup, Rule};

fn words(ws: &[&str]) -> Vec<String> {
    ws.iter().map(|w| w.to_string()).collect()
}

fn bad(pattern: &str) -> Problem {
    Problem::BadPattern { pattern: pattern.to_string() }
}

fn missing(program: &str) -> Problem {
    Problem::NotFound { program: program.to_string() }
}

#[test]
fn a_configuration_without_rules_is_fine() {
    let (ok, problems) = Config::new(1, vec![]).test(&vec![]);
    assert!(ok);
    assert!(problems.is_empty());
}

#[test]
fn an_empty_action_a_missing_program_and_a_bad_pattern_make_three_problems() {
    let mut rule = Rule::new();
    rule.action = Some(vec![words(&[]), words(&["no-such-program", "--flag"])]);
    rule.body = Some(vec![words(&["("])]);
    let config = Config::new(1, vec![rule]);
    let (ok, problems) = config.test(&words(&["cat"]));
    assert!(!ok);
    assert_eq!(problems, vec![Problem::EmptyAction { rule: 0 }, missing("no-such-program"), bad("(")]);
}

#[test]
fn a_rule_whose_programs_are_found_and_whose_patterns_compile_is_fine() {
    let mut group = HeaderGroup::new();
    group.insert("From".to_string(), "^alice@".to_string());
    let mut rule = Rule::new();
    rule.headers = Some(vec![group]);
    rule.body = Some(vec![words(&["a", "b"]), words(&["c"])]);
    rule.raw = Some(vec![words(&[r"(?-u)\xff"])]);
    rule.action = Some(vec![words(&["cat"]), words(&["tee", "copy"])]);
    rule.filter = Some(words(&["tr", "a", "b"]));
    let config = Config::new(1, vec![rule]);
    assert_eq!(config.programs(), words(&["cat", "tee", "tr"]));
    let (ok, problems) = config.test(&words(&["tr", "tee", "cat"]));
    assert!(ok);
    assert!(problems.is_empty());
    let (ok, problems) = config.test(&words(&["cat"]));
    assert!(!ok);
    assert_eq!(problems, vec![missing("tee"), missing("tr")]);
}

#[test]
fn every_check_is_made_and_reported_in_the_order_of_the_configuration() {
    let mut group = HeaderGroup::new();
    group.insert("To".to_string(), "[".to_string());
    let mut first = Rule::new();
    first.filter = Some(words(&[]));
    first.headers = Some(vec![HeaderGroup::new(), group]);
    first.body = Some(vec![]);
    first.raw = Some(vec![words(&[]), words(&["(a", "fine"])]);
    let mut second = Rule::new();
    second.action = Some(vec![words(&["gone"]), words(&[])]);
    second.filter = Some(words(&["gone"]));
    second.headers = Some(vec![]);
    second.body = Some(vec![words(&[]), words(&["*"])]);
    second.raw = Some(vec![]);
    let config = Config::new(1, vec![first, second]);
    let (ok, problems) = config.test(&vec![]);
    assert!(!ok);
    assert_eq!(
        problems,
        vec![
            Problem::EmptyFilter { rule: 0 },
            Problem::EmptyGroup { rule: 0, part: Part::Headers },
            bad("["),
            Problem::EmptyPart { rule: 0, part: Part::Body },
            Problem::EmptyGroup { rule: 0, part: Part::Raw },
            bad("(a"),
            missing("gone"),
            Problem::EmptyAction { rule: 1 },
            missing("gone"),
            Problem::EmptyPart { rule: 1, part: Part::Headers },
            Problem::EmptyGroup { rule: 1, part: Part::Body },
            bad("*"),
            Problem::EmptyPart { rule: 1, part: Part::Raw },
        ]
    );
    assert_eq!(config.programs(), words(&["gone", "gone"]));
}

#[test]
fn raw_patterns_are_checked_as_byte_regexes() {
    let mut rule = Rule::new();
    rule.raw = Some(vec![words(&[r"(?-u)\xff"])]);
    rule.body = Some(vec![words(&[r"(?-u)\xff"])]);
    let (ok, problems) = Config::new(1, vec![rule]).test(&vec![]);
    assert!(!ok);
    assert_eq!(problems, vec![bad(r"(?-u)\xff")]);
}

#[test]
fn an_action_list_without_actions_is_no_problem() {
    let mut rule = Rule::new();
    rule.action = Some(vec![]);
    let (ok, problems) = Config::new(1, vec![rule]).test(&vec![]);
    assert!(ok);
    assert!(problems.is_empty());
}

#[test]
fn a_run_succeeded_only_if_it_exited_with_code_zero() {
    let job = |status| Job { status, stdout: None, stderr: None };
    assert!(job(ExitOutcome::Exited(0)).success());
    assert!(!job(ExitOutcome::Exited(1)).success());
    assert!(!job(ExitOutcome::Signaled(0)).success());
    assert!(!job(ExitOutcome::Other(0)).success());
    assert!(!job(ExitOutcome::Undetermined).success());
}

#[test]
fn a_program_is_looked_up_with_which() {
    assert_eq!(Job::lookup("procmail"), words(&["which", "procmail"]));
}

#[test]
fn a_configuration_that_passes_the_check_is_scanned_without_reports() {
    let mut first = Rule::new();
    first.body = Some(vec![words(&["absent"])]);
    first.action = Some(vec![words(&["cat"])]);
    let mut second = Rule::new();
    second.raw = Some(vec![words(&["hello"])]);
    let config = Config::new(1, vec![first, second]);
    let (ok, _) = config.test(&words(&["cat"]));
    assert!(ok);
    let message = mailproc::MessageView { headers: vec![], body: Some("hello".to_string()) };
    let out = mailproc::handle(&message, b"hello", &config);
    assert_eq!(out.step, mailproc::Step::Matched { rule: 1, buffer: b"hello".to_vec() });
    assert!(out.problems.is_empty());
}
