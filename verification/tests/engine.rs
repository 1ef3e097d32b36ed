use mailproc::engine::{filter_outcome, handle, resume, wants_filter, Step};
use mailproc::job::{ExitOutcome, Job};
use mailproc::message::MessageView;
use mailproc::problem::Problem;
use mailproc::rule::{Config, Rule};

fn words(ws: &[&str]) -> Vec<String> {
    ws.iter().map(|w| w.to_string()).collect()
}

fn body_rule(pattern: &str) -> Rule {
    let mut rule = Rule::new();
    rule.body = Some(vec![words(&[pattern])]);
    rule
}

fn filtered(mut rule: Rule, command: &[&str]) -> Rule {
    rule.filter = Some(words(command));
    rule
}

fn plain(body: &str) -> (MessageView, Vec<u8>) {
    let raw = format!("Subject: test\n\n{}", body).into_bytes();
    let view = MessageView::parse(&raw).expect("the message parses");
    (view, raw)
}

fn exited(code: u32, stdout: Option<&[u8]>) -> Option<Job> {
    Some(Job { status: ExitOutcome::Exited(code), stdout: stdout.map(|b| b.to_vec()), stderr: Some(Vec::new()) })
}

#[test]
fn no_rules_no_match() {
    let (view, raw) = plain("hello");
    let out = handle(&view, &raw, &Config::new(1, vec![]));
    assert_eq!(out.step, Step::NoMatch);
    assert!(out.problems.is_empty());
}

#[test]
fn the_first_rule_that_matches_wins() {
    let (view, raw) = plain("hello world");
    let config = Config::new(1, vec![body_rule("absent"), body_rule("hello"), body_rule("world")]);
    let out = handle(&view, &raw, &config);
    assert_eq!(out.step, Step::Matched { rule: 1, buffer: raw.clone() });
}

#[test]
fn a_message_that_no_rule_matches_is_dropped() {
    let (view, raw) = plain("hello world");
    let config = Config::new(1, vec![body_rule("absent"), body_rule("missing")]);
    assert_eq!(handle(&view, &raw, &config).step, Step::NoMatch);
}

#[test]
fn the_filter_of_a_later_rule_is_never_asked_for_once_a_rule_matched() {
    let (view, raw) = plain("hello world");
    let config = Config::new(
        1,
        vec![body_rule("hello"), filtered(body_rule("hello"), &["touch", "marker"])],
    );
    let out = handle(&view, &raw, &config);
    assert_eq!(out.step, Step::Matched { rule: 0, buffer: raw.clone() });
}

#[test]
fn a_rule_with_a_filter_stops_the_scan_until_the_filter_has_run() {
    let (view, raw) = plain("hello world");
    let config = Config::new(
        1,
        vec![body_rule("absent"), filtered(body_rule("HELLO"), &["tr", "a-z", "A-Z"]), body_rule("hello")],
    );
    assert!(!wants_filter(&config.rules[0]));
    assert!(wants_filter(&config.rules[1]));
    let out = handle(&view, &raw, &config);
    assert_eq!(out.step, Step::Filter { rule: 1 });
    let upper = b"Subject: TEST\n\nHELLO WORLD".to_vec();
    let out = resume(&view, &raw, &config, 1, exited(0, Some(&upper)));
    assert_eq!(out.step, Step::Matched { rule: 1, buffer: upper });
    assert!(out.problems.is_empty());
}

#[test]
fn a_filter_that_fails_leaves_the_unfiltered_message_to_match() {
    let (view, raw) = plain("hello world");
    let config = Config::new(1, vec![filtered(body_rule("hello"), &["false"])]);
    assert_eq!(handle(&view, &raw, &config).step, Step::Filter { rule: 0 });
    let out = resume(&view, &raw, &config, 0, exited(1, Some(b"Subject: x\n\nother")));
    assert_eq!(out.step, Step::Matched { rule: 0, buffer: raw.clone() });
    assert_eq!(out.problems, vec![Problem::FilterFailed { rule: 0 }]);
}

#[test]
fn a_filter_that_could_not_be_started_leaves_the_unfiltered_message_to_match() {
    let (view, raw) = plain("hello world");
    let config = Config::new(1, vec![filtered(body_rule("hello"), &["no-such-program"])]);
    let out = resume(&view, &raw, &config, 0, None);
    assert_eq!(out.step, Step::Matched { rule: 0, buffer: raw.clone() });
    assert_eq!(out.problems, vec![Problem::FilterFailed { rule: 0 }]);
}

#[test]
fn a_filter_ended_by_a_signal_has_failed() {
    let (view, raw) = plain("hello world");
    let config = Config::new(1, vec![filtered(body_rule("other"), &["cat"])]);
    let job = Job { status: ExitOutcome::Signaled(9), stdout: Some(b"Subject: x\n\nother".to_vec()), stderr: None };
    let out = resume(&view, &raw, &config, 0, Some(job));
    assert_eq!(out.step, Step::NoMatch);
    assert_eq!(out.problems, vec![Problem::FilterFailed { rule: 0 }]);
}

#[test]
fn output_that_is_no_message_leaves_the_unfiltered_message_to_match() {
    let (view, raw) = plain("hello world");
    let config = Config::new(1, vec![filtered(body_rule("hello"), &["cat"])]);
    let out = resume(&view, &raw, &config, 0, exited(0, Some(b"\rnot a message")));
    assert_eq!(out.step, Step::Matched { rule: 0, buffer: raw.clone() });
    assert_eq!(out.problems, vec![Problem::FilterUnparsed { rule: 0 }]);
}

#[test]
fn a_filter_without_output_leaves_the_unfiltered_message_to_match() {
    let (view, raw) = plain("hello world");
    let config = Config::new(1, vec![filtered(body_rule("hello"), &["cat"])]);
    let out = resume(&view, &raw, &config, 0, exited(0, Some(b"")));
    assert_eq!(out.step, Step::Matched { rule: 0, buffer: raw.clone() });
    assert!(out.problems.is_empty());
    let out = resume(&view, &raw, &config, 0, exited(0, None));
    assert_eq!(out.step, Step::Matched { rule: 0, buffer: raw.clone() });
    assert!(out.problems.is_empty());
}

#[test]
fn after_a_filtered_rule_that_does_not_match_the_scan_goes_on_with_the_unfiltered_message() {
    let (view, raw) = plain("hello world");
    let config = Config::new(
        1,
        vec![
            filtered(body_rule("absent"), &["cat"]),
            body_rule("REPLACED"),
            filtered(body_rule("hello"), &["cat"]),
            body_rule("hello"),
        ],
    );
    assert_eq!(handle(&view, &raw, &config).step, Step::Filter { rule: 0 });
    let replaced = b"Subject: x\n\nREPLACED".to_vec();
    let out = resume(&view, &raw, &config, 0, exited(0, Some(&replaced)));
    // Rule 1 sees the unfiltered message, not what the filter of rule 0 made of it.
    assert_eq!(out.step, Step::Filter { rule: 2 });
    let out = resume(&view, &raw, &config, 2, exited(0, Some(&replaced)));
    assert_eq!(out.step, Step::Matched { rule: 3, buffer: raw.clone() });
}

#[test]
fn a_filter_without_a_program_is_reported_and_the_unfiltered_message_is_matched() {
    let (view, raw) = plain("hello world");
    let config = Config::new(1, vec![filtered(body_rule("absent"), &[]), filtered(body_rule("hello"), &[])]);
    assert!(!wants_filter(&config.rules[0]));
    let out = handle(&view, &raw, &config);
    assert_eq!(out.step, Step::Matched { rule: 1, buffer: raw.clone() });
    assert_eq!(out.problems, vec![Problem::EmptyFilter { rule: 0 }, Problem::EmptyFilter { rule: 1 }]);
}

#[test]
fn resume_at_a_rule_without_a_filter_or_past_the_end_scans_on() {
    let (view, raw) = plain("hello world");
    let config = Config::new(1, vec![body_rule("absent"), body_rule("hello")]);
    let out = resume(&view, &raw, &config, 0, exited(0, Some(b"Subject: x\n\nabsent")));
    assert_eq!(out.step, Step::Matched { rule: 1, buffer: raw.clone() });
    assert_eq!(resume(&view, &raw, &config, 2, None).step, Step::NoMatch);
    assert_eq!(resume(&view, &raw, &config, 7, None).step, Step::NoMatch);
}

#[test]
fn patterns_that_do_not_compile_are_reported_for_the_rules_that_were_tried() {
    let (view, raw) = plain("hello world");
    let config = Config::new(1, vec![body_rule("("), body_rule("hello"), body_rule("[")]);
    let out = handle(&view, &raw, &config);
    assert_eq!(out.step, Step::Matched { rule: 1, buffer: raw.clone() });
    assert_eq!(out.problems, vec![Problem::BadPattern { pattern: "(".to_string() }]);
}

#[test]
fn the_filter_pipeline_takes_only_the_output_of_a_run_that_succeeded() {
    let good = b"Subject: filtered\n\nnew body".to_vec();
    let (replaced, fault) = filter_outcome(3, exited(0, Some(&good)));
    let (view, buffer) = replaced.expect("the output is used");
    assert_eq!(buffer, good);
    assert_eq!(view.body.as_deref(), Some("new body"));
    assert_eq!(view.first_value("subject").map(|s| s.as_str()), Some("filtered"));
    assert_eq!(fault, None);
    let (replaced, fault) = filter_outcome(3, exited(2, Some(&good)));
    assert!(replaced.is_none());
    assert_eq!(fault, Some(Problem::FilterFailed { rule: 3 }));
    let (replaced, fault) = filter_outcome(3, None);
    assert!(replaced.is_none());
    assert_eq!(fault, Some(Problem::FilterFailed { rule: 3 }));
    let (replaced, fault) = filter_outcome(3, exited(0, Some(b"\rnot a message")));
    assert!(replaced.is_none());
    assert_eq!(fault, Some(Problem::FilterUnparsed { rule: 3 }));
    let (replaced, fault) = filter_outcome(3, exited(0, Some(b"")));
    assert!(replaced.is_none());
    assert_eq!(fault, None);
}
