//! The validator: what is wrong with a configuration, whatever the message.
//!
//! Every check is made and every failure is reported; none stops the others.
//! Whether a program is on the search path is for the caller to find out:
//! [`Config::programs`] says which programs to look for, and [`Config::test`]
//! takes the ones that were found.

use vstd::prelude::*;
use crate::matcher::{
    bytes_fault,
    bytes_group_faults,
    fault_seq,
    header_group_faults,
    text_fault,
    text_group_faults,
};
use crate::pattern::{compile_bytes, compile_text};
use crate::problem::{report, Part, Problem, ProblemModel};
use crate::rule::{Config, HeaderGroup, Rule, RuleModel};

verus! {

/// The program that a command names, if it names one.
pub open spec fn command_program(command: Seq<Seq<char>>) -> Option<Seq<char>> {
    if command.len() > 0 {
        Some(command[0])
    } else {
        None
    }
}

/// A program that may be missing, as a sequence.
pub open spec fn program_seq(program: Option<Seq<char>>) -> Seq<Seq<char>> {
    match program {
        Some(p) => seq![p],
        None => Seq::empty(),
    }
}

/// The programs that the actions of a rule name, in the order of the actions.
pub open spec fn action_programs(actions: Option<Seq<Seq<Seq<char>>>>) -> Seq<Seq<char>> {
    match actions {
        Some(commands) => commands.filter_map(|command: Seq<Seq<char>>| command_program(command)),
        None => Seq::empty(),
    }
}

/// The program that the filter of a rule names.
pub open spec fn filter_program(filter: Option<Seq<Seq<char>>>) -> Seq<Seq<char>> {
    match filter {
        Some(command) => program_seq(command_program(command)),
        None => Seq::empty(),
    }
}

/// The programs that a rule names: those of its actions, then that of its filter.
pub open spec fn rule_programs(rule: RuleModel) -> Seq<Seq<char>> {
    action_programs(rule.action) + filter_program(rule.filter)
}

/// The programs that the first `hi` rules name, rule after rule.
pub open spec fn programs_upto(rules: Seq<RuleModel>, hi: int) -> Seq<Seq<char>>
    decreases hi,
{
    if hi <= 0 {
        Seq::empty()
    } else {
        programs_upto(rules, hi - 1) + rule_programs(rules[hi - 1])
    }
}

/// What is wrong with one command: it names no program, which `empty` reports,
/// or its program is not among those found.
pub open spec fn command_fault(
    found: Seq<Seq<char>>,
    command: Seq<Seq<char>>,
    empty: ProblemModel,
) -> Option<ProblemModel> {
    if command.len() == 0 {
        Some(empty)
    } else if found.contains(command[0]) {
        None
    } else {
        Some(ProblemModel::NotFound { program: command[0] })
    }
}

/// What is wrong with the actions of the rule at `index`, action after action.
pub open spec fn action_faults(
    found: Seq<Seq<char>>,
    index: int,
    actions: Option<Seq<Seq<Seq<char>>>>,
) -> Seq<ProblemModel> {
    match actions {
        Some(commands) => commands.filter_map(
            |command: Seq<Seq<char>>|
                command_fault(found, command, ProblemModel::EmptyAction { rule: index }),
        ),
        None => Seq::empty(),
    }
}

/// What is wrong with the filter of the rule at `index`.
pub open spec fn filter_faults(
    found: Seq<Seq<char>>,
    index: int,
    filter: Option<Seq<Seq<char>>>,
) -> Seq<ProblemModel> {
    match filter {
        Some(command) => fault_seq(
            command_fault(found, command, ProblemModel::EmptyFilter { rule: index }),
        ),
        None => Seq::empty(),
    }
}

/// The report on a list that must not be empty.
pub open spec fn empty_fault(len: nat, problem: ProblemModel) -> Seq<ProblemModel> {
    if len == 0 {
        seq![problem]
    } else {
        Seq::empty()
    }
}

/// What is wrong with one header group of the rule at `index`: that it is empty,
/// then its patterns that do not compile.
pub open spec fn header_group_check(index: int, group: Seq<(Seq<char>, Seq<char>)>) -> Seq<
    ProblemModel,
> {
    empty_fault(group.len(), ProblemModel::EmptyGroup { rule: index, part: Part::Headers })
        + header_group_faults(group)
}

/// What is wrong with one body group of the rule at `index`: that it is empty,
/// then its patterns that do not compile as text regexes.
pub open spec fn body_group_check(index: int, group: Seq<Seq<char>>) -> Seq<ProblemModel> {
    empty_fault(group.len(), ProblemModel::EmptyGroup { rule: index, part: Part::Body })
        + text_group_faults(group)
}

/// What is wrong with one raw group of the rule at `index`: that it is empty,
/// then its patterns that do not compile as byte regexes.
pub open spec fn raw_group_check(index: int, group: Seq<Seq<char>>) -> Seq<ProblemModel> {
    empty_fault(group.len(), ProblemModel::EmptyGroup { rule: index, part: Part::Raw })
        + bytes_group_faults(group)
}

/// What is wrong with the header part of the rule at `index`: that it has no
/// group, then what is wrong with each group.
pub open spec fn headers_check(index: int, groups: Option<Seq<Seq<(Seq<char>, Seq<char>)>>>) -> Seq<
    ProblemModel,
> {
    match groups {
        Some(gs) => empty_fault(
            gs.len(),
            ProblemModel::EmptyPart { rule: index, part: Part::Headers },
        ) + gs.flat_map(|group: Seq<(Seq<char>, Seq<char>)>| header_group_check(index, group)),
        None => Seq::empty(),
    }
}

/// What is wrong with the body part of the rule at `index`: that it has no
/// group, then what is wrong with each group.
pub open spec fn body_check(index: int, groups: Option<Seq<Seq<Seq<char>>>>) -> Seq<ProblemModel> {
    match groups {
        Some(gs) => empty_fault(gs.len(), ProblemModel::EmptyPart { rule: index, part: Part::Body })
            + gs.flat_map(|group: Seq<Seq<char>>| body_group_check(index, group)),
        None => Seq::empty(),
    }
}

/// What is wrong with the raw part of the rule at `index`: that it has no
/// group, then what is wrong with each group.
pub open spec fn raw_check(index: int, groups: Option<Seq<Seq<Seq<char>>>>) -> Seq<ProblemModel> {
    match groups {
        Some(gs) => empty_fault(gs.len(), ProblemModel::EmptyPart { rule: index, part: Part::Raw })
            + gs.flat_map(|group: Seq<Seq<char>>| raw_group_check(index, group)),
        None => Seq::empty(),
    }
}

/// Everything that is wrong with the rule at `index`: with its actions, its
/// filter, its header part, its body part and its raw part, in this order.
pub open spec fn rule_check(found: Seq<Seq<char>>, index: int, rule: RuleModel) -> Seq<
    ProblemModel,
> {
    action_faults(found, index, rule.action) + filter_faults(found, index, rule.filter)
        + headers_check(index, rule.headers) + body_check(index, rule.body) + raw_check(
        index,
        rule.raw,
    )
}

/// Everything that is wrong with the first `hi` rules, rule after rule.
pub open spec fn check_upto(found: Seq<Seq<char>>, rules: Seq<RuleModel>, hi: int) -> Seq<
    ProblemModel,
>
    decreases hi,
{
    if hi <= 0 {
        Seq::empty()
    } else {
        check_upto(found, rules, hi - 1) + rule_check(found, hi - 1, rules[hi - 1])
    }
}

/// Everything that is wrong with a configuration, given the programs that were
/// found on the search path.
pub open spec fn config_check(found: Seq<Seq<char>>, rules: Seq<RuleModel>) -> Seq<ProblemModel> {
    check_upto(found, rules, rules.len() as int)
}

/// Every program that a configuration names, with repetitions.
pub open spec fn config_programs(rules: Seq<RuleModel>) -> Seq<Seq<char>> {
    programs_upto(rules, rules.len() as int)
}

/// Whether `program` is among the programs that were found.
fn is_found(found: &Vec<String>, program: &String) -> (there: bool)
    ensures
        there == found.deep_view().contains(program@),
{
    let mut i: usize = 0;
    while i < found.len()
        invariant
            i <= found.len(),
            forall|j: int| 0 <= j < i ==> found.deep_view()[j] != program@,
        decreases found.len() - i,
    {
        if found[i] == *program {
            assert(found.deep_view()[i as int] == program@);
            return true;
        }
        i += 1;
    }
    false
}

/// Checks one command. `empty` is what to report of a command without a program.
fn check_command(
    found: &Vec<String>,
    command: &Vec<String>,
    empty: Problem,
    problems: &mut Vec<Problem>,
)
    ensures
        final(problems).deep_view() == old(problems).deep_view() + fault_seq(
            command_fault(found.deep_view(), command.deep_view(), empty@),
        ),
{
    if command.len() == 0 {
        report(problems, empty);
    } else if !is_found(found, &command[0]) {
        report(problems, Problem::NotFound { program: command[0].clone() });
    }
}

/// Checks the actions of the rule at `index`.
fn check_actions(
    found: &Vec<String>,
    index: usize,
    actions: &Option<Vec<Vec<String>>>,
    problems: &mut Vec<Problem>,
)
    ensures
        final(problems).deep_view() == old(problems).deep_view() + action_faults(
            found.deep_view(),
            index as int,
            actions.deep_view(),
        ),
{
    match actions {
        None => {},
        Some(commands) => {
            let ghost names = found.deep_view();
            let ghost fault = |command: Seq<Seq<char>>|
                command_fault(names, command, ProblemModel::EmptyAction { rule: index as int });
            let ghost models = commands.deep_view();
            let mut i: usize = 0;
            while i < commands.len()
                invariant
                    i <= commands.len(),
                    models == commands.deep_view(),
                    names == found.deep_view(),
                    fault == |command: Seq<Seq<char>>|
                        command_fault(
                            names,
                            command,
                            ProblemModel::EmptyAction { rule: index as int },
                        ),
                    problems.deep_view() == old(problems).deep_view() + models.take(
                        i as int,
                    ).filter_map(fault),
                decreases commands.len() - i,
            {
                check_command(found, &commands[i], Problem::EmptyAction { rule: index }, problems);
                proof {
                    models.lemma_filter_map_take_succ(fault, i as int);
                }
                i += 1;
            }
            assert(models.take(models.len() as int) =~= models);
        },
    }
}

/// Checks the filter of the rule at `index`.
fn check_filter(
    found: &Vec<String>,
    index: usize,
    filter: &Option<Vec<String>>,
    problems: &mut Vec<Problem>,
)
    ensures
        final(problems).deep_view() == old(problems).deep_view() + filter_faults(
            found.deep_view(),
            index as int,
            filter.deep_view(),
        ),
{
    match filter {
        None => {},
        Some(command) => {
            check_command(found, command, Problem::EmptyFilter { rule: index }, problems);
        },
    }
}

/// Reports `problem` where a list that must not be empty is.
fn check_not_empty(len: usize, problem: Problem, problems: &mut Vec<Problem>)
    ensures
        final(problems).deep_view() == old(problems).deep_view() + empty_fault(
            len as nat,
            problem@,
        ),
{
    if len == 0 {
        report(problems, problem);
    }
}

/// Reports a pattern that does not compile as a text regex.
fn check_text_pattern(pattern: &String, problems: &mut Vec<Problem>)
    ensures
        final(problems).deep_view() == old(problems).deep_view() + fault_seq(text_fault(pattern@)),
{
    match compile_text(pattern.as_str()) {
        Ok(_) => {},
        Err(_) => {
            report(problems, Problem::BadPattern { pattern: pattern.clone() });
        },
    }
}

/// Reports a pattern that does not compile as a byte regex.
fn check_bytes_pattern(pattern: &String, problems: &mut Vec<Problem>)
    ensures
        final(problems).deep_view() == old(problems).deep_view() + fault_seq(bytes_fault(pattern@)),
{
    match compile_bytes(pattern.as_str()) {
        Ok(_) => {},
        Err(_) => {
            report(problems, Problem::BadPattern { pattern: pattern.clone() });
        },
    }
}

/// Checks one header group of the rule at `index`.
fn check_header_group(index: usize, group: &HeaderGroup, problems: &mut Vec<Problem>)
    ensures
        final(problems).deep_view() == old(problems).deep_view() + header_group_check(
            index as int,
            group@,
        ),
{
    let ghost fault = |entry: (Seq<char>, Seq<char>)| text_fault(entry.1);
    let ghost models = group@;
    let empty = Problem::EmptyGroup { rule: index, part: Part::Headers };
    check_not_empty(group.len(), empty, problems);
    let ghost start = problems.deep_view();
    let mut i: usize = 0;
    while i < group.len()
        invariant
            i <= group@.len(),
            models == group@,
            fault == |entry: (Seq<char>, Seq<char>)| text_fault(entry.1),
            problems.deep_view() == start + models.take(i as int).filter_map(fault),
        decreases group@.len() - i,
    {
        check_text_pattern(group.pattern(i), problems);
        proof {
            models.lemma_filter_map_take_succ(fault, i as int);
        }
        i += 1;
    }
    assert(models.take(models.len() as int) =~= models);
}

/// Checks one body group of the rule at `index`.
fn check_body_group(index: usize, group: &Vec<String>, problems: &mut Vec<Problem>)
    ensures
        final(problems).deep_view() == old(problems).deep_view() + body_group_check(
            index as int,
            group.deep_view(),
        ),
{
    let ghost fault = |pattern: Seq<char>| text_fault(pattern);
    let ghost models = group.deep_view();
    let empty = Problem::EmptyGroup { rule: index, part: Part::Body };
    check_not_empty(group.len(), empty, problems);
    let ghost start = problems.deep_view();
    let mut i: usize = 0;
    while i < group.len()
        invariant
            i <= group.len(),
            models == group.deep_view(),
            fault == |pattern: Seq<char>| text_fault(pattern),
            problems.deep_view() == start + models.take(i as int).filter_map(fault),
        decreases group.len() - i,
    {
        check_text_pattern(&group[i], problems);
        proof {
            models.lemma_filter_map_take_succ(fault, i as int);
        }
        i += 1;
    }
    assert(models.take(models.len() as int) =~= models);
}

/// Checks one raw group of the rule at `index`.
fn check_raw_group(index: usize, group: &Vec<String>, problems: &mut Vec<Problem>)
    ensures
        final(problems).deep_view() == old(problems).deep_view() + raw_group_check(
            index as int,
            group.deep_view(),
        ),
{
    let ghost fault = |pattern: Seq<char>| bytes_fault(pattern);
    let ghost models = group.deep_view();
    let empty = Problem::EmptyGroup { rule: index, part: Part::Raw };
    check_not_empty(group.len(), empty, problems);
    let ghost start = problems.deep_view();
    let mut i: usize = 0;
    while i < group.len()
        invariant
            i <= group.len(),
            models == group.deep_view(),
            fault == |pattern: Seq<char>| bytes_fault(pattern),
            problems.deep_view() == start + models.take(i as int).filter_map(fault),
        decreases group.len() - i,
    {
        check_bytes_pattern(&group[i], problems);
        proof {
            models.lemma_filter_map_take_succ(fault, i as int);
        }
        i += 1;
    }
    assert(models.take(models.len() as int) =~= models);
}

/// Checks the header part of the rule at `index`.
fn check_headers(index: usize, groups: &Option<Vec<HeaderGroup>>, problems: &mut Vec<Problem>)
    ensures
        final(problems).deep_view() == old(problems).deep_view() + headers_check(
            index as int,
            groups.deep_view(),
        ),
{
    match groups {
        None => {},
        Some(gs) => {
            let ghost faults = |group: Seq<(Seq<char>, Seq<char>)>|
                header_group_check(index as int, group);
            let ghost models = gs.deep_view();
            let empty = Problem::EmptyPart { rule: index, part: Part::Headers };
            check_not_empty(gs.len(), empty, problems);
            let ghost start = problems.deep_view();
            let mut i: usize = 0;
            while i < gs.len()
                invariant
                    i <= gs.len(),
                    models == gs.deep_view(),
                    faults == |group: Seq<(Seq<char>, Seq<char>)>|
                        header_group_check(index as int, group),
                    problems.deep_view() == start + models.take(i as int).flat_map(faults),
                decreases gs.len() - i,
            {
                check_header_group(index, &gs[i], problems);
                proof {
                    models.lemma_flat_map_take_append(faults, i as int);
                }
                i += 1;
            }
            assert(models.take(models.len() as int) =~= models);
        },
    }
}

/// Checks the body part of the rule at `index`.
fn check_body(index: usize, groups: &Option<Vec<Vec<String>>>, problems: &mut Vec<Problem>)
    ensures
        final(problems).deep_view() == old(problems).deep_view() + body_check(
            index as int,
            groups.deep_view(),
        ),
{
    match groups {
        None => {},
        Some(gs) => {
            let ghost faults = |group: Seq<Seq<char>>| body_group_check(index as int, group);
            let ghost models = gs.deep_view();
            let empty = Problem::EmptyPart { rule: index, part: Part::Body };
            check_not_empty(gs.len(), empty, problems);
            let ghost start = problems.deep_view();
            let mut i: usize = 0;
            while i < gs.len()
                invariant
                    i <= gs.len(),
                    models == gs.deep_view(),
                    faults == |group: Seq<Seq<char>>| body_group_check(index as int, group),
                    problems.deep_view() == start + models.take(i as int).flat_map(faults),
                decreases gs.len() - i,
            {
                check_body_group(index, &gs[i], problems);
                proof {
                    models.lemma_flat_map_take_append(faults, i as int);
                }
                i += 1;
            }
            assert(models.take(models.len() as int) =~= models);
        },
    }
}

/// Checks the raw part of the rule at `index`.
fn check_raw(index: usize, groups: &Option<Vec<Vec<String>>>, problems: &mut Vec<Problem>)
    ensures
        final(problems).deep_view() == old(problems).deep_view() + raw_check(
            index as int,
            groups.deep_view(),
        ),
{
    match groups {
        None => {},
        Some(gs) => {
            let ghost faults = |group: Seq<Seq<char>>| raw_group_check(index as int, group);
            let ghost models = gs.deep_view();
            let empty = Problem::EmptyPart { rule: index, part: Part::Raw };
            check_not_empty(gs.len(), empty, problems);
            let ghost start = problems.deep_view();
            let mut i: usize = 0;
            assert(models.take(0).flat_map(faults) =~= Seq::empty());
            while i < gs.len()
                invariant
                    i <= gs.len(),
                    models == gs.deep_view(),
                    faults == |group: Seq<Seq<char>>| raw_group_check(index as int, group),
                    problems.deep_view() == start + models.take(i as int).flat_map(faults),
                decreases gs.len() - i,
            {
                check_raw_group(index, &gs[i], problems);
                proof {
                    models.lemma_flat_map_take_append(faults, i as int);
                }
                i += 1;
            }
            assert(models.take(models.len() as int) =~= models);
        },
    }
}

/// Checks the rule at `index`.
fn check_rule(found: &Vec<String>, index: usize, rule: &Rule, problems: &mut Vec<Problem>)
    ensures
        final(problems).deep_view() == old(problems).deep_view() + rule_check(
            found.deep_view(),
            index as int,
            rule@,
        ),
{
    check_actions(found, index, &rule.action, problems);
    check_filter(found, index, &rule.filter, problems);
    check_headers(index, &rule.headers, problems);
    check_body(index, &rule.body, problems);
    check_raw(index, &rule.raw, problems);
}

/// Adds the program that a command names, if it names one.
fn add_program(command: &Vec<String>, programs: &mut Vec<String>)
    ensures
        final(programs).deep_view() == old(programs).deep_view() + program_seq(
            command_program(command.deep_view()),
        ),
{
    if command.len() > 0 {
        let program = command[0].clone();
        programs.push(program);
    }
}

/// Adds the programs that a rule names.
fn add_rule_programs(rule: &Rule, programs: &mut Vec<String>)
    ensures
        final(programs).deep_view() == old(programs).deep_view() + rule_programs(rule@),
{
    let ghost before = programs.deep_view();
    match &rule.action {
        None => {},
        Some(commands) => {
            let ghost program = |command: Seq<Seq<char>>| command_program(command);
            let ghost models = commands.deep_view();
            let mut i: usize = 0;
            while i < commands.len()
                invariant
                    i <= commands.len(),
                    models == commands.deep_view(),
                    program == |command: Seq<Seq<char>>| command_program(command),
                    programs.deep_view() == before + models.take(i as int).filter_map(program),
                decreases commands.len() - i,
            {
                add_program(&commands[i], programs);
                proof {
                    models.lemma_filter_map_take_succ(program, i as int);
                }
                i += 1;
            }
            assert(models.take(models.len() as int) =~= models);
        },
    }
    match &rule.filter {
        None => {},
        Some(command) => {
            add_program(command, programs);
        },
    }
}

impl Config {
    /// Every program that the actions and filters of the rules name, rule after
    /// rule, for the caller to look for on the search path.
    pub fn programs(&self) -> (programs: Vec<String>)
        ensures
            programs.deep_view() == config_programs(self@.rules),
    {
        let mut programs: Vec<String> = Vec::new();
        let mut i: usize = 0;
        while i < self.rules.len()
            invariant
                i <= self.rules.len(),
                self@.rules.len() == self.rules.len(),
                programs.deep_view() == programs_upto(self@.rules, i as int),
            decreases self.rules.len() - i,
        {
            add_rule_programs(&self.rules[i], &mut programs);
            i += 1;
        }
        programs
    }

    /// Checks the configuration, given the programs that were found on the search
    /// path. Every rule is checked in every part, and every failure is reported,
    /// in the order of the configuration. The first component says whether
    /// nothing was found wrong.
    pub fn test(&self, found: &Vec<String>) -> (r: (bool, Vec<Problem>))
        ensures
            r.1.deep_view() == config_check(found.deep_view(), self@.rules),
            r.0 == (config_check(found.deep_view(), self@.rules).len() == 0),
    {
        let mut problems: Vec<Problem> = Vec::new();
        let mut i: usize = 0;
        while i < self.rules.len()
            invariant
                i <= self.rules.len(),
                self@.rules.len() == self.rules.len(),
                problems.deep_view() == check_upto(found.deep_view(), self@.rules, i as int),
            decreases self.rules.len() - i,
        {
            check_rule(found, i, &self.rules[i], &mut problems);
            i += 1;
        }
        (problems.len() == 0, problems)
    }
}

} // verus!
