//! The predicate matcher: what one rule says of one message.
//!
//! A rule may constrain the headers, the decoded body and the raw bytes. Each
//! part is a list of groups. A group holds when every predicate in it holds; a
//! part holds when one of its groups does, or when the rule does not constrain
//! it. A pattern that does not compile holds of nothing, and is reported.

use vstd::prelude::*;
use crate::message::{first_value, MessageModel, MessageView};
use crate::pattern::{
    bytes_is_match,
    bytes_match,
    bytes_pattern_compiles,
    compile_bytes,
    compile_text,
    text_is_match,
    text_matches,
    text_pattern_compiles,
};
use crate::problem::{report, Problem, ProblemModel};
use crate::rule::{HeaderGroup, Rule, RuleModel};

verus! {

/// The three verdicts of one rule on one message, one for each part of the
/// message that a rule can constrain.
#[derive(Clone, Copy, Debug, PartialEq, Eq, Structural)]
pub struct Match {
    pub headers: bool,
    pub body: bool,
    pub raw: bool,
}

impl Match {
    /// A rule matches when none of the three parts stands in its way.
    pub open spec fn is_match(&self) -> bool {
        self.headers && self.body && self.raw
    }

    /// Whether the rule matches.
    #[verifier::when_used_as_spec(is_match)]
    pub fn matched(&self) -> (m: bool)
        ensures
            m == self.is_match(),
    {
        self.headers && self.body && self.raw
    }
}

/// Whether a text pattern holds of a text that may be missing. It does not hold
/// of a missing text.
pub open spec fn text_holds(pattern: Seq<char>, text: Option<Seq<char>>) -> bool {
    match text {
        Some(t) => text_matches(pattern, t),
        None => false,
    }
}

/// Whether one header predicate holds: the message has a header of that name,
/// and the pattern matches the value of the first such header.
pub open spec fn header_holds(message: MessageModel, entry: (Seq<char>, Seq<char>)) -> bool {
    text_holds(entry.1, first_value(message.headers, entry.0))
}

/// Whether every predicate of a header group holds.
pub open spec fn header_group_holds(
    message: MessageModel,
    group: Seq<(Seq<char>, Seq<char>)>,
) -> bool {
    forall|i: int| 0 <= i < group.len() ==> header_holds(message, #[trigger] group[i])
}

/// Whether one of the header groups holds.
pub open spec fn some_header_group_holds(
    message: MessageModel,
    groups: Seq<Seq<(Seq<char>, Seq<char>)>>,
) -> bool {
    exists|g: int| 0 <= g < groups.len() && header_group_holds(message, #[trigger] groups[g])
}

/// Whether the headers let the rule match.
pub open spec fn headers_hold(
    message: MessageModel,
    groups: Option<Seq<Seq<(Seq<char>, Seq<char>)>>>,
) -> bool {
    match groups {
        None => true,
        Some(gs) => some_header_group_holds(message, gs),
    }
}

/// Whether every pattern of a body group matches the decoded body.
pub open spec fn body_group_holds(message: MessageModel, group: Seq<Seq<char>>) -> bool {
    forall|i: int| 0 <= i < group.len() ==> text_holds(#[trigger] group[i], message.body)
}

/// Whether one of the body groups holds.
pub open spec fn some_body_group_holds(message: MessageModel, groups: Seq<Seq<Seq<char>>>) -> bool {
    exists|g: int| 0 <= g < groups.len() && body_group_holds(message, #[trigger] groups[g])
}

/// Whether the body lets the rule match.
pub open spec fn body_holds(message: MessageModel, groups: Option<Seq<Seq<Seq<char>>>>) -> bool {
    match groups {
        None => true,
        Some(gs) => some_body_group_holds(message, gs),
    }
}

/// Whether every pattern of a raw group matches the raw bytes.
pub open spec fn raw_group_holds(raw: Seq<u8>, group: Seq<Seq<char>>) -> bool {
    forall|i: int| 0 <= i < group.len() ==> bytes_match(#[trigger] group[i], raw)
}

/// Whether one of the raw groups holds.
pub open spec fn some_raw_group_holds(raw: Seq<u8>, groups: Seq<Seq<Seq<char>>>) -> bool {
    exists|g: int| 0 <= g < groups.len() && raw_group_holds(raw, #[trigger] groups[g])
}

/// Whether the raw bytes let the rule match.
pub open spec fn raw_holds(raw: Seq<u8>, groups: Option<Seq<Seq<Seq<char>>>>) -> bool {
    match groups {
        None => true,
        Some(gs) => some_raw_group_holds(raw, gs),
    }
}

/// What a rule says of a message, part by part.
pub open spec fn verdict(rule: RuleModel, message: MessageModel, raw: Seq<u8>) -> Match {
    Match {
        headers: headers_hold(message, rule.headers),
        body: body_holds(message, rule.body),
        raw: raw_holds(raw, rule.raw),
    }
}

/// Whether a rule matches a message.
pub open spec fn rule_matches(rule: RuleModel, message: MessageModel, raw: Seq<u8>) -> bool {
    verdict(rule, message, raw).is_match()
}

/// The report on a pattern that is used on text: nothing where it compiles.
pub open spec fn text_fault(pattern: Seq<char>) -> Option<ProblemModel> {
    if text_pattern_compiles(pattern) {
        None
    } else {
        Some(ProblemModel::BadPattern { pattern })
    }
}

/// The report on a pattern that is used on raw bytes: nothing where it compiles.
pub open spec fn bytes_fault(pattern: Seq<char>) -> Option<ProblemModel> {
    if bytes_pattern_compiles(pattern) {
        None
    } else {
        Some(ProblemModel::BadPattern { pattern })
    }
}

/// A report of at most one problem, as a sequence.
pub open spec fn fault_seq(fault: Option<ProblemModel>) -> Seq<ProblemModel> {
    match fault {
        Some(problem) => seq![problem],
        None => Seq::empty(),
    }
}

/// The patterns of a header group that do not compile, in the order of the group.
pub open spec fn header_group_faults(group: Seq<(Seq<char>, Seq<char>)>) -> Seq<ProblemModel> {
    group.filter_map(|entry: (Seq<char>, Seq<char>)| text_fault(entry.1))
}

/// The patterns of a body group that do not compile, in the order of the group.
pub open spec fn text_group_faults(group: Seq<Seq<char>>) -> Seq<ProblemModel> {
    group.filter_map(|pattern: Seq<char>| text_fault(pattern))
}

/// The patterns of a raw group that do not compile, in the order of the group.
pub open spec fn bytes_group_faults(group: Seq<Seq<char>>) -> Seq<ProblemModel> {
    group.filter_map(|pattern: Seq<char>| bytes_fault(pattern))
}

/// The header patterns of a rule that do not compile, group after group.
pub open spec fn header_faults(groups: Option<Seq<Seq<(Seq<char>, Seq<char>)>>>) -> Seq<
    ProblemModel,
> {
    match groups {
        None => Seq::empty(),
        Some(gs) => gs.flat_map(|group: Seq<(Seq<char>, Seq<char>)>| header_group_faults(group)),
    }
}

/// The body patterns of a rule that do not compile, group after group.
pub open spec fn body_faults(groups: Option<Seq<Seq<Seq<char>>>>) -> Seq<ProblemModel> {
    match groups {
        None => Seq::empty(),
        Some(gs) => gs.flat_map(|group: Seq<Seq<char>>| text_group_faults(group)),
    }
}

/// The raw patterns of a rule that do not compile, group after group.
pub open spec fn raw_faults(groups: Option<Seq<Seq<Seq<char>>>>) -> Seq<ProblemModel> {
    match groups {
        None => Seq::empty(),
        Some(gs) => gs.flat_map(|group: Seq<Seq<char>>| bytes_group_faults(group)),
    }
}

/// Every pattern of a rule that does not compile: those for the headers, then
/// those for the body, then those for the raw bytes.
pub open spec fn pattern_faults(rule: RuleModel) -> Seq<ProblemModel> {
    header_faults(rule.headers) + body_faults(rule.body) + raw_faults(rule.raw)
}

/// Tries one text pattern on a text that may be missing.
fn try_text(pattern: &String, text: Option<&String>, problems: &mut Vec<Problem>) -> (holds: bool)
    ensures
        holds == text_holds(pattern@, text.deep_view()),
        final(problems).deep_view() == old(problems).deep_view() + fault_seq(text_fault(pattern@)),
{
    match compile_text(pattern.as_str()) {
        Ok(re) => match text {
            Some(t) => text_is_match(&re, t.as_str()),
            None => false,
        },
        Err(_) => {
            report(problems, Problem::BadPattern { pattern: pattern.clone() });
            false
        },
    }
}

/// Tries one pattern on the raw bytes.
fn try_bytes(pattern: &String, raw: &[u8], problems: &mut Vec<Problem>) -> (holds: bool)
    ensures
        holds == bytes_match(pattern@, raw@),
        final(problems).deep_view() == old(problems).deep_view() + fault_seq(bytes_fault(pattern@)),
{
    match compile_bytes(pattern.as_str()) {
        Ok(re) => bytes_is_match(&re, raw),
        Err(_) => {
            report(problems, Problem::BadPattern { pattern: pattern.clone() });
            false
        },
    }
}

/// Tries every predicate of one header group.
fn try_header_group(
    group: &HeaderGroup,
    message: &MessageView,
    problems: &mut Vec<Problem>,
) -> (holds: bool)
    ensures
        holds == header_group_holds(message@, group@),
        final(problems).deep_view() == old(problems).deep_view() + header_group_faults(group@),
{
    let ghost fault = |entry: (Seq<char>, Seq<char>)| text_fault(entry.1);
    let mut holds = true;
    let mut i: usize = 0;
    while i < group.len()
        invariant
            i <= group@.len(),
            fault == |entry: (Seq<char>, Seq<char>)| text_fault(entry.1),
            holds == (forall|j: int| 0 <= j < i ==> header_holds(message@, #[trigger] group@[j])),
            problems.deep_view() == old(problems).deep_view() + group@.take(i as int).filter_map(
                fault,
            ),
        decreases group@.len() - i,
    {
        let value = message.first_value(group.name(i).as_str());
        let ok = try_text(group.pattern(i), value, problems);
        proof {
            group@.lemma_filter_map_take_succ(fault, i as int);
        }
        holds = holds && ok;
        i += 1;
    }
    assert(group@.take(group@.len() as int) =~= group@);
    holds
}

/// Tries every pattern of one body group on the decoded body.
fn try_body_group(
    group: &Vec<String>,
    message: &MessageView,
    problems: &mut Vec<Problem>,
) -> (holds: bool)
    ensures
        holds == body_group_holds(message@, group.deep_view()),
        final(problems).deep_view() == old(problems).deep_view() + text_group_faults(
            group.deep_view(),
        ),
{
    let ghost fault = |pattern: Seq<char>| text_fault(pattern);
    let ghost patterns = group.deep_view();
    let mut holds = true;
    let mut i: usize = 0;
    while i < group.len()
        invariant
            i <= group.len(),
            patterns == group.deep_view(),
            fault == |pattern: Seq<char>| text_fault(pattern),
            holds == (forall|j: int|
                0 <= j < i ==> text_holds(#[trigger] patterns[j], message@.body)),
            problems.deep_view() == old(problems).deep_view() + patterns.take(i as int).filter_map(
                fault,
            ),
        decreases group.len() - i,
    {
        let ok = try_text(&group[i], message.body.as_ref(), problems);
        proof {
            patterns.lemma_filter_map_take_succ(fault, i as int);
        }
        holds = holds && ok;
        i += 1;
    }
    assert(patterns.take(patterns.len() as int) =~= patterns);
    holds
}

/// Tries every pattern of one raw group on the raw bytes.
fn try_bytes_group(group: &Vec<String>, raw: &[u8], problems: &mut Vec<Problem>) -> (holds: bool)
    ensures
        holds == raw_group_holds(raw@, group.deep_view()),
        final(problems).deep_view() == old(problems).deep_view() + bytes_group_faults(
            group.deep_view(),
        ),
{
    let ghost fault = |pattern: Seq<char>| bytes_fault(pattern);
    let ghost patterns = group.deep_view();
    let mut holds = true;
    let mut i: usize = 0;
    while i < group.len()
        invariant
            i <= group.len(),
            patterns == group.deep_view(),
            fault == |pattern: Seq<char>| bytes_fault(pattern),
            holds == (forall|j: int| 0 <= j < i ==> bytes_match(#[trigger] patterns[j], raw@)),
            problems.deep_view() == old(problems).deep_view() + patterns.take(i as int).filter_map(
                fault,
            ),
        decreases group.len() - i,
    {
        let ok = try_bytes(&group[i], raw, problems);
        proof {
            patterns.lemma_filter_map_take_succ(fault, i as int);
        }
        holds = holds && ok;
        i += 1;
    }
    assert(patterns.take(patterns.len() as int) =~= patterns);
    holds
}

/// Tries the header groups of a rule, every one of them.
fn try_headers(
    groups: &Option<Vec<HeaderGroup>>,
    message: &MessageView,
    problems: &mut Vec<Problem>,
) -> (holds: bool)
    ensures
        holds == headers_hold(message@, groups.deep_view()),
        final(problems).deep_view() == old(problems).deep_view() + header_faults(
            groups.deep_view(),
        ),
{
    match groups {
        None => true,
        Some(gs) => {
            let ghost faults = |group: Seq<(Seq<char>, Seq<char>)>| header_group_faults(group);
            let ghost models = gs.deep_view();
            let mut holds = false;
            let mut i: usize = 0;
            while i < gs.len()
                invariant
                    i <= gs.len(),
                    models == gs.deep_view(),
                    faults == |group: Seq<(Seq<char>, Seq<char>)>| header_group_faults(group),
                    holds == (exists|g: int|
                        0 <= g < i && header_group_holds(message@, #[trigger] models[g])),
                    problems.deep_view() == old(problems).deep_view() + models.take(
                        i as int,
                    ).flat_map(faults),
                decreases gs.len() - i,
            {
                let ok = try_header_group(&gs[i], message, problems);
                proof {
                    models.lemma_flat_map_take_append(faults, i as int);
                }
                holds = holds || ok;
                i += 1;
            }
            assert(models.take(models.len() as int) =~= models);
            holds
        },
    }
}

/// Tries the body groups of a rule, every one of them.
fn try_body(
    groups: &Option<Vec<Vec<String>>>,
    message: &MessageView,
    problems: &mut Vec<Problem>,
) -> (holds: bool)
    ensures
        holds == body_holds(message@, groups.deep_view()),
        final(problems).deep_view() == old(problems).deep_view() + body_faults(groups.deep_view()),
{
    match groups {
        None => true,
        Some(gs) => {
            let ghost faults = |group: Seq<Seq<char>>| text_group_faults(group);
            let ghost models = gs.deep_view();
            let mut holds = false;
            let mut i: usize = 0;
            while i < gs.len()
                invariant
                    i <= gs.len(),
                    models == gs.deep_view(),
                    faults == |group: Seq<Seq<char>>| text_group_faults(group),
                    holds == (exists|g: int|
                        0 <= g < i && body_group_holds(message@, #[trigger] models[g])),
                    problems.deep_view() == old(problems).deep_view() + models.take(
                        i as int,
                    ).flat_map(faults),
                decreases gs.len() - i,
            {
                let ok = try_body_group(&gs[i], message, problems);
                proof {
                    models.lemma_flat_map_take_append(faults, i as int);
                }
                holds = holds || ok;
                i += 1;
            }
            assert(models.take(models.len() as int) =~= models);
            holds
        },
    }
}

/// Tries the raw groups of a rule, every one of them.
fn try_raw(
    groups: &Option<Vec<Vec<String>>>,
    raw: &[u8],
    problems: &mut Vec<Problem>,
) -> (holds: bool)
    ensures
        holds == raw_holds(raw@, groups.deep_view()),
        final(problems).deep_view() == old(problems).deep_view() + raw_faults(groups.deep_view()),
{
    match groups {
        None => true,
        Some(gs) => {
            let ghost faults = |group: Seq<Seq<char>>| bytes_group_faults(group);
            let ghost models = gs.deep_view();
            let mut holds = false;
            let mut i: usize = 0;
            while i < gs.len()
                invariant
                    i <= gs.len(),
                    models == gs.deep_view(),
                    faults == |group: Seq<Seq<char>>| bytes_group_faults(group),
                    holds == (exists|g: int|
                        0 <= g < i && raw_group_holds(raw@, #[trigger] models[g])),
                    problems.deep_view() == old(problems).deep_view() + models.take(
                        i as int,
                    ).flat_map(faults),
                decreases gs.len() - i,
            {
                let ok = try_bytes_group(&gs[i], raw, problems);
                proof {
                    models.lemma_flat_map_take_append(faults, i as int);
                }
                holds = holds || ok;
                i += 1;
            }
            assert(models.take(models.len() as int) =~= models);
            holds
        },
    }
}

/// Tries a rule on a message and adds to the report the patterns that do not
/// compile.
pub fn evaluate_into(
    rule: &Rule,
    message: &MessageView,
    raw: &[u8],
    problems: &mut Vec<Problem>,
) -> (m: Match)
    ensures
        m == verdict(rule@, message@, raw@),
        final(problems).deep_view() == old(problems).deep_view() + pattern_faults(rule@),
{
    let headers = try_headers(&rule.headers, message, problems);
    let body = try_body(&rule.body, message, problems);
    let raw = try_raw(&rule.raw, raw, problems);
    Match { headers, body, raw }
}

/// What the predicate matcher finds: the verdict, and the patterns that do not
/// compile.
#[derive(Clone, Debug)]
pub struct Evaluation {
    pub verdict: Match,
    pub problems: Vec<Problem>,
}

impl Rule {
    /// Tries the rule on a message. All three parts are tried, and every group of
    /// each, whatever the others gave.
    pub fn evaluate(&self, message: &MessageView, raw: &[u8]) -> (found: Evaluation)
        ensures
            found.verdict == verdict(self@, message@, raw@),
            found.problems.deep_view() == pattern_faults(self@),
    {
        let mut problems: Vec<Problem> = Vec::new();
        let verdict = evaluate_into(self, message, raw, &mut problems);
        Evaluation { verdict, problems }
    }
}

} // verus!
