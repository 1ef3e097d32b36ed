//! The rule engine: which rule, if any, takes a message.
//!
//! The rules are tried in the order of the configuration, and the first that
//! matches wins. A rule with a filter is tried on what its filter makes of the
//! message. Running a filter is the caller's work, so the engine goes in steps:
//! [`handle`] tries the rules up to the first one that needs its filter run, and
//! [`resume`] goes on from there once the caller has run it.

use vstd::prelude::*;
use vstd::slice::slice_to_vec;
use crate::job::{Job, JobModel};
use crate::matcher::{evaluate_into, fault_seq, pattern_faults, rule_matches};
use crate::message::{parsed_message, MessageModel, MessageView};
use crate::problem::{report, Problem, ProblemModel};
use crate::rule::{Config, Rule, RuleModel};

verus! {

/// Where the engine stands after a step.
#[derive(Clone, Debug, PartialEq, Eq)]
pub enum Step {
    /// The rule at `rule` has a filter. Run it on the unfiltered bytes of the
    /// message, then call [`resume`] with what it left.
    Filter { rule: usize },
    /// The rule at `rule` took the message. `buffer` holds the bytes to hand to
    /// its actions.
    Matched { rule: usize, buffer: Vec<u8> },
    /// No rule matches the message.
    NoMatch,
}

/// A step, and what was found wrong on the way to it.
#[derive(Clone, Debug)]
pub struct Outcome {
    pub step: Step,
    pub problems: Vec<Problem>,
}

/// Whether a rule has a filter that can be run. A filter without a program
/// cannot be; such a rule is tried on the unfiltered message.
pub open spec fn needs_filter(rule: RuleModel) -> bool {
    match rule.filter {
        Some(command) => command.len() > 0,
        None => false,
    }
}

/// What a run of a filter gives to match against: its output and the message
/// parsed from it, where the run succeeded and left an output that is not empty
/// and parses as a message.
pub open spec fn filter_output(job: Option<JobModel>) -> Option<(MessageModel, Seq<u8>)> {
    match job {
        Some(j) => match j.stdout {
            Some(out) => match parsed_message(out) {
                Some(message) => if j.success() && out.len() > 0 {
                    Some((message, out))
                } else {
                    None
                },
                None => None,
            },
            None => None,
        },
        None => None,
    }
}

/// What is reported of a run of the filter of the rule at `rule`. `None` for
/// `job` stands for a filter that could not be started.
pub open spec fn filter_fault(rule: int, job: Option<JobModel>) -> Option<ProblemModel> {
    match job {
        None => Some(ProblemModel::FilterFailed { rule }),
        Some(j) => if !j.success() {
            Some(ProblemModel::FilterFailed { rule })
        } else {
            match j.stdout {
                Some(out) => if out.len() > 0 && parsed_message(out) is None {
                    Some(ProblemModel::FilterUnparsed { rule })
                } else {
                    None
                },
                None => None,
            }
        },
    }
}

/// The message and the bytes that a rule is tried on, once its filter has run:
/// what the filter made of the message, or else the message and the bytes as they came.
pub open spec fn effective(
    rule: RuleModel,
    message: MessageModel,
    raw: Seq<u8>,
    job: Option<JobModel>,
) -> (MessageModel, Seq<u8>) {
    if needs_filter(rule) {
        match filter_output(job) {
            Some(replaced) => replaced,
            None => (message, raw),
        }
    } else {
        (message, raw)
    }
}

/// What is reported of the rule at `index` when it is tried without a run of a
/// filter: a filter without a program, then the patterns that do not compile.
pub open spec fn settled_faults(index: int, rule: RuleModel) -> Seq<ProblemModel> {
    (if rule.filter is Some && !needs_filter(rule) {
        seq![ProblemModel::EmptyFilter { rule: index }]
    } else {
        Seq::empty()
    }) + pattern_faults(rule)
}

/// What is reported of the rules from `lo` up to `hi`, `hi` not included, when
/// each is tried without a run of a filter.
pub open spec fn scan_faults(rules: Seq<RuleModel>, lo: int, hi: int) -> Seq<ProblemModel>
    decreases hi - lo,
{
    if hi <= lo {
        Seq::empty()
    } else {
        scan_faults(rules, lo, hi - 1) + settled_faults(hi - 1, rules[hi - 1])
    }
}

/// Whether the rules from `lo` up to `hi`, `hi` not included, can all be tried
/// without a run of a filter, and none of them matches the message.
pub open spec fn passed_over(
    rules: Seq<RuleModel>,
    message: MessageModel,
    raw: Seq<u8>,
    lo: int,
    hi: int,
) -> bool {
    forall|k: int|
        lo <= k < hi ==> !needs_filter(#[trigger] rules[k]) && !rule_matches(rules[k], message, raw)
}

/// Whether `step` is where a scan of the rules from `from` on ends, and
/// `problems` is `before` followed by what the scan reports.
pub open spec fn scanned(
    rules: Seq<RuleModel>,
    message: MessageModel,
    raw: Seq<u8>,
    from: int,
    before: Seq<ProblemModel>,
    step: Step,
    problems: Seq<ProblemModel>,
) -> bool {
    match step {
        Step::Filter { rule } => {
            &&& from <= rule < rules.len()
            &&& passed_over(rules, message, raw, from, rule as int)
            &&& needs_filter(rules[rule as int])
            &&& problems == before + scan_faults(rules, from, rule as int)
        },
        Step::Matched { rule, buffer } => {
            &&& from <= rule < rules.len()
            &&& passed_over(rules, message, raw, from, rule as int)
            &&& !needs_filter(rules[rule as int])
            &&& rule_matches(rules[rule as int], message, raw)
            &&& buffer@ == raw
            &&& problems == before + scan_faults(rules, from, rule + 1)
        },
        Step::NoMatch => {
            &&& passed_over(rules, message, raw, from, rules.len() as int)
            &&& problems == before + scan_faults(rules, from, rules.len() as int)
        },
    }
}

/// What is reported of the rule at `index` when it is tried after a run of its
/// filter: what the run left to report, then the patterns that do not compile.
pub open spec fn resumed_faults(index: int, rule: RuleModel, job: Option<JobModel>) -> Seq<
    ProblemModel,
> {
    fault_seq(filter_fault(index, job)) + pattern_faults(rule)
}

/// Whether `step` and `problems` are what comes of going on at the rule at
/// `rule` with what its filter left.
pub open spec fn resumed(
    rules: Seq<RuleModel>,
    message: MessageModel,
    raw: Seq<u8>,
    rule: int,
    job: Option<JobModel>,
    step: Step,
    problems: Seq<ProblemModel>,
) -> bool {
    if 0 <= rule < rules.len() && needs_filter(rules[rule]) {
        let tried = effective(rules[rule], message, raw, job);
        let first = resumed_faults(rule, rules[rule], job);
        if rule_matches(rules[rule], tried.0, tried.1) {
            &&& step matches Step::Matched { rule: taken, buffer }
            &&& taken == rule
            &&& buffer@ == tried.1
            &&& problems == first
        } else {
            scanned(rules, message, raw, rule + 1, first, step, problems)
        }
    } else {
        scanned(rules, message, raw, rule, Seq::empty(), step, problems)
    }
}

/// The rule that takes the message and the bytes that go to its actions, when the
/// rules from `from` on are tried one after the other, each on what its filter
/// makes of the message; `jobs` gives for each rule what a run of its filter
/// leaves. This is what the steps of the engine work out, a filter at a time.
pub open spec fn engine_result(
    rules: Seq<RuleModel>,
    message: MessageModel,
    raw: Seq<u8>,
    jobs: spec_fn(int) -> Option<JobModel>,
    from: int,
) -> Option<(int, Seq<u8>)>
    decreases rules.len() - from,
{
    if from < 0 || from >= rules.len() {
        None
    } else {
        let tried = effective(rules[from], message, raw, jobs(from));
        if rule_matches(rules[from], tried.0, tried.1) {
            Some((from, tried.1))
        } else {
            engine_result(rules, message, raw, jobs, from + 1)
        }
    }
}

/// The mathematical value of what takes the place of a message.
pub open spec fn replacement(replaced: Option<(MessageView, Vec<u8>)>) -> Option<
    (MessageModel, Seq<u8>),
> {
    match replaced {
        Some((message, raw)) => Some((message@, raw@)),
        None => None,
    }
}

/// Whether the rule has a filter that can be run.
pub fn wants_filter(rule: &Rule) -> (wanted: bool)
    ensures
        wanted == needs_filter(rule@),
{
    match &rule.filter {
        Some(command) => command.len() > 0,
        None => false,
    }
}

/// The filter pipeline, after the run: what the rule at `rule` is to be tried on
/// in place of the unfiltered message, if anything, and what there is to report.
/// `None` for `job` stands for a filter that could not be started.
pub fn filter_outcome(rule: usize, job: Option<Job>) -> (r: (
    Option<(MessageView, Vec<u8>)>,
    Option<Problem>,
))
    ensures
        replacement(r.0) == filter_output(job.deep_view()),
        r.1.deep_view() == filter_fault(rule as int, job.deep_view()),
{
    match job {
        None => (None, Some(Problem::FilterFailed { rule })),
        Some(job) => {
            if !job.success() {
                return (None, Some(Problem::FilterFailed { rule }));
            }
            match job.stdout {
                None => (None, None),
                Some(out) => {
                    if out.len() == 0 {
                        return (None, None);
                    }
                    match MessageView::parse(out.as_slice()) {
                        Some(message) => (Some((message, out)), None),
                        None => (None, Some(Problem::FilterUnparsed { rule })),
                    }
                },
            }
        },
    }
}

/// Tries the rules from `from` on, each on the unfiltered message, up to the
/// first that matches or needs its filter run.
fn scan(
    message: &MessageView,
    raw: &[u8],
    config: &Config,
    from: usize,
    reported: Vec<Problem>,
) -> (out: Outcome)
    ensures
        scanned(
            config@.rules,
            message@,
            raw@,
            from as int,
            reported.deep_view(),
            out.step,
            out.problems.deep_view(),
        ),
{
    let ghost rules = config@.rules;
    let ghost before = reported.deep_view();
    let mut problems = reported;
    let mut i: usize = from;
    while i < config.rules.len()
        invariant
            from <= i,
            i <= config.rules.len() || i == from,
            before == reported.deep_view(),
            rules == config@.rules,
            rules.len() == config.rules.len(),
            passed_over(rules, message@, raw@, from as int, i as int),
            problems.deep_view() == before + scan_faults(rules, from as int, i as int),
        decreases config.rules.len() - i,
    {
        let rule = &config.rules[i];
        if wants_filter(rule) {
            return Outcome { step: Step::Filter { rule: i }, problems };
        }
        if rule.filter.is_some() {
            report(&mut problems, Problem::EmptyFilter { rule: i });
        }
        let verdict = evaluate_into(rule, message, raw, &mut problems);
        assert(problems.deep_view() =~= before + scan_faults(rules, from as int, i + 1));
        if verdict.matched() {
            return Outcome { step: Step::Matched { rule: i, buffer: slice_to_vec(raw) }, problems };
        }
        i += 1;
    }
    Outcome { step: Step::NoMatch, problems }
}

/// Starts on a message: tries the rules in order, each on the message as it
/// came, up to the first that matches or needs its filter run.
pub fn handle(parsed_mail: &MessageView, input_buf: &[u8], config: &Config) -> (out: Outcome)
    ensures
        scanned(
            config@.rules,
            parsed_mail@,
            input_buf@,
            0,
            Seq::empty(),
            out.step,
            out.problems.deep_view(),
        ),
{
    scan(parsed_mail, input_buf, config, 0, Vec::new())
}

/// Goes on at the rule at `rule`, whose filter the caller has run on the
/// unfiltered bytes: `job` is what the run left, `None` where it could not be
/// started. The rule is tried on what the filter made of the message, or on the
/// unfiltered message where that cannot be used; if it does not match, the rules
/// after it are tried as [`handle`] tries them.
pub fn resume(
    parsed_mail: &MessageView,
    input_buf: &[u8],
    config: &Config,
    rule: usize,
    job: Option<Job>,
) -> (out: Outcome)
    ensures
        resumed(
            config@.rules,
            parsed_mail@,
            input_buf@,
            rule as int,
            job.deep_view(),
            out.step,
            out.problems.deep_view(),
        ),
{
    let mut problems: Vec<Problem> = Vec::new();
    if rule >= config.rules.len() || !wants_filter(&config.rules[rule]) {
        return scan(parsed_mail, input_buf, config, rule, problems);
    }
    let current = &config.rules[rule];
    let (replaced, fault) = filter_outcome(rule, job);
    if let Some(problem) = fault {
        report(&mut problems, problem);
        assert(problems.deep_view() =~= fault_seq(filter_fault(rule as int, job.deep_view())));
    }
    match replaced {
        Some((message, buffer)) => {
            let verdict = evaluate_into(current, &message, buffer.as_slice(), &mut problems);
            if verdict.matched() {
                return Outcome { step: Step::Matched { rule, buffer }, problems };
            }
        },
        None => {
            let verdict = evaluate_into(current, parsed_mail, input_buf, &mut problems);
            if verdict.matched() {
                return Outcome {
                    step: Step::Matched { rule, buffer: slice_to_vec(input_buf) },
                    problems,
                };
            }
        },
    }
    scan(parsed_mail, input_buf, config, rule + 1, problems)
}

} // verus!
