//! What holds of the matcher and the engine for every rule and every message.

use vstd::prelude::*;
use crate::engine::{
    effective,
    engine_result,
    needs_filter,
    passed_over,
    resumed,
    scan_faults,
    scanned,
    settled_faults,
    Step,
};
use crate::job::JobModel;
use crate::matcher::{
    body_holds,
    header_group_holds,
    rule_matches,
    some_header_group_holds,
    text_holds,
    verdict,
};
use crate::message::MessageModel;
use crate::pattern::text_pattern_compiles;
use crate::problem::ProblemModel;
use crate::rule::RuleModel;
use crate::validate::{check_upto, config_check, rule_check};

verus! {

/// A rule that constrains neither the headers nor the body nor the raw bytes
/// matches every message.
pub proof fn unconstrained_rule_matches(rule: RuleModel, message: MessageModel, raw: Seq<u8>)
    requires
        rule.headers is None,
        rule.body is None,
        rule.raw is None,
    ensures
        rule_matches(rule, message, raw),
{
}

/// A header group that holds a pattern which does not compile never holds,
/// whatever the message and the other entries of the group.
pub proof fn bad_pattern_fails_header_group(
    message: MessageModel,
    group: Seq<(Seq<char>, Seq<char>)>,
    i: int,
)
    requires
        0 <= i < group.len(),
        !text_pattern_compiles(group[i].1),
    ensures
        !header_group_holds(message, group),
{
}

/// A header group that holds a pattern which does not compile adds nothing to the
/// headers part: the part holds with the group exactly if it holds without it.
pub proof fn bad_header_group_adds_nothing(
    message: MessageModel,
    groups: Seq<Seq<(Seq<char>, Seq<char>)>>,
    g: int,
    i: int,
)
    requires
        0 <= g < groups.len(),
        0 <= i < groups[g].len(),
        !text_pattern_compiles(groups[g][i].1),
    ensures
        some_header_group_holds(message, groups) == some_header_group_holds(
            message,
            groups.remove(g),
        ),
{
    let rest = groups.remove(g);
    bad_pattern_fails_header_group(message, groups[g], i);
    if some_header_group_holds(message, groups) {
        let k = choose|k: int|
            0 <= k < groups.len() && header_group_holds(message, #[trigger] groups[k]);
        if k < g {
            assert(rest[k] == groups[k]);
        } else {
            assert(rest[k - 1] == groups[k]);
        }
    }
}

/// A header group is a mapping, so the order of its entries does not count: two
/// groups with the same entries hold of the same messages.
pub proof fn header_group_ignores_order(
    message: MessageModel,
    one: Seq<(Seq<char>, Seq<char>)>,
    other: Seq<(Seq<char>, Seq<char>)>,
)
    requires
        one.to_set() == other.to_set(),
    ensures
        header_group_holds(message, one) == header_group_holds(message, other),
{
    assert forall|a: Seq<(Seq<char>, Seq<char>)>, b: Seq<(Seq<char>, Seq<char>)>|
        a.to_set() == b.to_set() && header_group_holds(message, a) implies header_group_holds(
        message,
        b,
    ) by {
        assert forall|i: int| 0 <= i < b.len() implies crate::matcher::header_holds(
            message,
            #[trigger] b[i],
        ) by {
            assert(b.to_set().contains(b[i]));
            let j = choose|j: int| 0 <= j < a.len() && a[j] == b[i];
        }
    }
}

/// The groups of a part are alternatives, so their order does not count: two
/// lists of the same header groups hold of the same messages.
pub proof fn header_groups_ignore_order(
    message: MessageModel,
    one: Seq<Seq<(Seq<char>, Seq<char>)>>,
    other: Seq<Seq<(Seq<char>, Seq<char>)>>,
)
    requires
        one.to_set() == other.to_set(),
    ensures
        some_header_group_holds(message, one) == some_header_group_holds(message, other),
{
    assert forall|a: Seq<Seq<(Seq<char>, Seq<char>)>>, b: Seq<Seq<(Seq<char>, Seq<char>)>>|
        a.to_set() == b.to_set() && some_header_group_holds(message, a) implies some_header_group_holds(
        message,
        b,
    ) by {
        let k = choose|k: int| 0 <= k < a.len() && header_group_holds(message, #[trigger] a[k]);
        assert(a.to_set().contains(a[k]));
        let j = choose|j: int| 0 <= j < b.len() && b[j] == a[k];
    }
}

/// Groups are alternatives: a body part of two groups with one pattern each holds
/// exactly if one of the two patterns matches the body.
pub proof fn two_body_groups_are_alternatives(message: MessageModel, a: Seq<char>, b: Seq<char>)
    ensures
        body_holds(message, Some(seq![seq![a], seq![b]])) == (text_holds(a, message.body)
            || text_holds(b, message.body)),
{
    let groups = seq![seq![a], seq![b]];
    assert(groups[0][0] == a);
    assert(groups[1][0] == b);
}

/// What a rule says of the raw bytes does not depend on the parsed message.
pub proof fn raw_verdict_ignores_message(
    rule: RuleModel,
    one: MessageModel,
    other: MessageModel,
    raw: Seq<u8>,
)
    ensures
        verdict(rule, one, raw).raw == verdict(rule, other, raw).raw,
{
}

/// The first match wins. Where a rule without a filter to run matches the message,
/// a scan that starts at or before it ends at that rule or earlier: it takes that
/// rule or an earlier one, or it asks for the filter of an earlier rule. No rule
/// after it is tried, and no filter after it is asked for.
pub proof fn first_match_wins(
    rules: Seq<RuleModel>,
    message: MessageModel,
    raw: Seq<u8>,
    from: int,
    before: Seq<ProblemModel>,
    step: Step,
    problems: Seq<ProblemModel>,
    winner: int,
)
    requires
        scanned(rules, message, raw, from, before, step, problems),
        from <= winner < rules.len(),
        !needs_filter(rules[winner]),
        rule_matches(rules[winner], message, raw),
    ensures
        match step {
            Step::Filter { rule } => rule < winner,
            Step::Matched { rule, buffer } => rule <= winner,
            Step::NoMatch => false,
        },
{
}

/// A scan has one outcome: two steps that both end the same scan name the same
/// rule, hand on the same bytes, and come with the same report.
pub proof fn scan_has_one_outcome(
    rules: Seq<RuleModel>,
    message: MessageModel,
    raw: Seq<u8>,
    from: int,
    before: Seq<ProblemModel>,
    one: Step,
    one_problems: Seq<ProblemModel>,
    other: Step,
    other_problems: Seq<ProblemModel>,
)
    requires
        scanned(rules, message, raw, from, before, one, one_problems),
        scanned(rules, message, raw, from, before, other, other_problems),
    ensures
        one_problems == other_problems,
        match (one, other) {
            (Step::Filter { rule: a }, Step::Filter { rule: b }) => a == b,
            (Step::Matched { rule: a, buffer: x }, Step::Matched { rule: b, buffer: y }) => a == b
                && x@ == y@,
            (Step::NoMatch, Step::NoMatch) => true,
            _ => false,
        },
{
}

/// A filter that did not start, or did not exit with success, changes nothing:
/// the rule is tried on the message and the bytes as they came.
pub proof fn failed_filter_changes_nothing(
    rule: RuleModel,
    message: MessageModel,
    raw: Seq<u8>,
    job: Option<JobModel>,
)
    requires
        match job {
            Some(j) => !j.success(),
            None => true,
        },
    ensures
        effective(rule, message, raw, job) == (message, raw),
{
}

/// The rules from `from` up to `upto` do not decide the result where none of them
/// has a filter to run and none matches the message.
pub proof fn passed_over_rules_do_not_count(
    rules: Seq<RuleModel>,
    message: MessageModel,
    raw: Seq<u8>,
    jobs: spec_fn(int) -> Option<JobModel>,
    from: int,
    upto: int,
)
    requires
        0 <= from <= upto <= rules.len(),
        passed_over(rules, message, raw, from, upto),
    ensures
        engine_result(rules, message, raw, jobs, from) == engine_result(
            rules,
            message,
            raw,
            jobs,
            upto,
        ),
    decreases upto - from,
{
    if from < upto {
        passed_over_rules_do_not_count(rules, message, raw, jobs, from + 1, upto);
    }
}

/// A scan works out the result of the engine as far as it can without a filter:
/// a rule that it takes is the rule that the engine takes, with the same bytes;
/// where it finds no match there is none; and where it asks for a filter, the
/// result is that of going on at the rule of that filter.
pub proof fn scan_follows_the_engine(
    rules: Seq<RuleModel>,
    message: MessageModel,
    raw: Seq<u8>,
    jobs: spec_fn(int) -> Option<JobModel>,
    from: int,
    before: Seq<ProblemModel>,
    step: Step,
    problems: Seq<ProblemModel>,
)
    requires
        0 <= from,
        scanned(rules, message, raw, from, before, step, problems),
    ensures
        match step {
            Step::Filter { rule } => engine_result(rules, message, raw, jobs, from)
                == engine_result(rules, message, raw, jobs, rule as int),
            Step::Matched { rule, buffer } => engine_result(rules, message, raw, jobs, from) == Some(
                (rule as int, buffer@),
            ),
            Step::NoMatch => engine_result(rules, message, raw, jobs, from) is None,
        },
{
    match step {
        Step::Filter { rule } => {
            passed_over_rules_do_not_count(rules, message, raw, jobs, from, rule as int);
        },
        Step::Matched { rule, buffer } => {
            passed_over_rules_do_not_count(rules, message, raw, jobs, from, rule as int);
        },
        Step::NoMatch => {
            if from <= rules.len() {
                passed_over_rules_do_not_count(rules, message, raw, jobs, from, rules.len() as int);
            }
        },
    }
}

/// Going on after a filter works out the result of the engine from the rule of
/// that filter on, given what the run of the filter left: a rule that is taken
/// is the rule that the engine takes, with the same bytes; where no match is
/// found there is none; and where the next filter is asked for, it is that of a
/// later rule, and the result is that of going on there.
pub proof fn resume_follows_the_engine(
    rules: Seq<RuleModel>,
    message: MessageModel,
    raw: Seq<u8>,
    jobs: spec_fn(int) -> Option<JobModel>,
    rule: int,
    step: Step,
    problems: Seq<ProblemModel>,
)
    requires
        0 <= rule < rules.len(),
        needs_filter(rules[rule]),
        resumed(rules, message, raw, rule, jobs(rule), step, problems),
    ensures
        match step {
            Step::Filter { rule: next } => rule < next && engine_result(
                rules,
                message,
                raw,
                jobs,
                rule,
            ) == engine_result(rules, message, raw, jobs, next as int),
            Step::Matched { rule: taken, buffer } => engine_result(rules, message, raw, jobs, rule)
                == Some((taken as int, buffer@)),
            Step::NoMatch => engine_result(rules, message, raw, jobs, rule) is None,
        },
{
    let tried = effective(rules[rule], message, raw, jobs(rule));
    if !rule_matches(rules[rule], tried.0, tried.1) {
        scan_follows_the_engine(
            rules,
            message,
            raw,
            jobs,
            rule + 1,
            crate::engine::resumed_faults(rule, rules[rule], jobs(rule)),
            step,
            problems,
        );
    }
}

/// A concatenation over a sequence is empty exactly if every piece is.
proof fn flat_map_is_empty<A, B>(s: Seq<A>, f: spec_fn(A) -> Seq<B>)
    ensures
        (s.flat_map(f).len() == 0) == (forall|j: int| 0 <= j < s.len() ==> f(#[trigger] s[j]).len() == 0),
    decreases s.len(),
{
    if s.len() > 0 {
        let front = s.drop_last();
        flat_map_is_empty(front, f);
        front.lemma_flat_map_push(f, s.last());
        assert(front.push(s.last()) =~= s);
        assert(forall|j: int| 0 <= j < front.len() ==> front[j] == s[j]);
        if s.flat_map(f).len() == 0 {
            assert forall|j: int| 0 <= j < s.len() implies f(#[trigger] s[j]).len() == 0 by {
                if j < front.len() {
                    assert(f(front[j]).len() == 0);
                }
            }
        }
    }
}

/// A rule in which the check of a configuration finds nothing wrong gives
/// nothing to report when it is tried without a run of a filter.
pub proof fn checked_rule_is_tried_clean(found: Seq<Seq<char>>, index: int, rule: RuleModel)
    requires
        rule_check(found, index, rule).len() == 0,
    ensures
        settled_faults(index, rule) == Seq::<ProblemModel>::empty(),
{
    if let Some(gs) = rule.headers {
        let checks = |group: Seq<(Seq<char>, Seq<char>)>|
            crate::validate::header_group_check(index, group);
        let faults = |group: Seq<(Seq<char>, Seq<char>)>| crate::matcher::header_group_faults(group);
        flat_map_is_empty(gs, checks);
        flat_map_is_empty(gs, faults);
    }
    if let Some(gs) = rule.body {
        let checks = |group: Seq<Seq<char>>| crate::validate::body_group_check(index, group);
        let faults = |group: Seq<Seq<char>>| crate::matcher::text_group_faults(group);
        flat_map_is_empty(gs, checks);
        flat_map_is_empty(gs, faults);
    }
    if let Some(gs) = rule.raw {
        let checks = |group: Seq<Seq<char>>| crate::validate::raw_group_check(index, group);
        let faults = |group: Seq<Seq<char>>| crate::matcher::bytes_group_faults(group);
        flat_map_is_empty(gs, checks);
        flat_map_is_empty(gs, faults);
    }
    assert(settled_faults(index, rule) =~= Seq::<ProblemModel>::empty());
}

/// Where the check finds nothing wrong with the first `hi` rules, it finds nothing
/// wrong with any one of them.
proof fn clean_check_is_clean_throughout(
    found: Seq<Seq<char>>,
    rules: Seq<RuleModel>,
    hi: int,
    k: int,
)
    requires
        check_upto(found, rules, hi).len() == 0,
        0 <= k < hi,
    ensures
        rule_check(found, k, rules[k]).len() == 0,
    decreases hi,
{
    if k < hi - 1 {
        clean_check_is_clean_throughout(found, rules, hi - 1, k);
    }
}

/// What the validator passes, the engine tries without complaint: where the
/// check of a configuration finds nothing wrong, a scan of its rules reports
/// nothing.
pub proof fn checked_configuration_scans_clean(
    found: Seq<Seq<char>>,
    rules: Seq<RuleModel>,
    lo: int,
    hi: int,
)
    requires
        config_check(found, rules).len() == 0,
        0 <= lo,
        hi <= rules.len(),
    ensures
        scan_faults(rules, lo, hi) == Seq::<ProblemModel>::empty(),
    decreases hi - lo,
{
    if lo < hi {
        checked_configuration_scans_clean(found, rules, lo, hi - 1);
        clean_check_is_clean_throughout(found, rules, rules.len() as int, hi - 1);
        checked_rule_is_tried_clean(found, hi - 1, rules[hi - 1]);
    }
}

} // verus!
