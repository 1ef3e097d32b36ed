//! What can be wrong with a configuration, or go wrong while a message is
//! matched. None of it stops the work: each is reported, and the work goes on.

use vstd::prelude::*;

verus! {

/// The part of a message that a predicate speaks of.
#[derive(Clone, Copy, Debug, PartialEq, Eq, Structural)]
pub enum Part {
    Headers,
    Body,
    Raw,
}

/// One thing found wrong.
#[derive(Clone, Debug, PartialEq, Eq)]
pub enum Problem {
    /// A program that an action or a filter names is not on the search path.
    NotFound { program: String },
    /// An action of the rule is a command without a program.
    EmptyAction { rule: usize },
    /// The filter of the rule is a command without a program.
    EmptyFilter { rule: usize },
    /// The rule constrains a part of the message, but with no group at all.
    EmptyPart { rule: usize, part: Part },
    /// A group of the rule holds no predicate.
    EmptyGroup { rule: usize, part: Part },
    /// A pattern does not compile.
    BadPattern { pattern: String },
    /// The filter of the rule did not start, or did not exit with success.
    FilterFailed { rule: usize },
    /// The filter of the rule exited with success, but its output is no message.
    FilterUnparsed { rule: usize },
}

/// The mathematical value of a [`Problem`].
pub ghost enum ProblemModel {
    NotFound { program: Seq<char> },
    EmptyAction { rule: int },
    EmptyFilter { rule: int },
    EmptyPart { rule: int, part: Part },
    EmptyGroup { rule: int, part: Part },
    BadPattern { pattern: Seq<char> },
    FilterFailed { rule: int },
    FilterUnparsed { rule: int },
}

impl View for Problem {
    type V = ProblemModel;

    open spec fn view(&self) -> ProblemModel {
        match *self {
            Problem::NotFound { program } => ProblemModel::NotFound { program: program@ },
            Problem::EmptyAction { rule } => ProblemModel::EmptyAction { rule: rule as int },
            Problem::EmptyFilter { rule } => ProblemModel::EmptyFilter { rule: rule as int },
            Problem::EmptyPart { rule, part } => ProblemModel::EmptyPart { rule: rule as int, part },
            Problem::EmptyGroup { rule, part } => ProblemModel::EmptyGroup {
                rule: rule as int,
                part,
            },
            Problem::BadPattern { pattern } => ProblemModel::BadPattern { pattern: pattern@ },
            Problem::FilterFailed { rule } => ProblemModel::FilterFailed { rule: rule as int },
            Problem::FilterUnparsed { rule } => ProblemModel::FilterUnparsed { rule: rule as int },
        }
    }
}

impl DeepView for Problem {
    type V = ProblemModel;

    open spec fn deep_view(&self) -> ProblemModel {
        self@
    }
}

/// Adds one problem to a report.
pub fn report(problems: &mut Vec<Problem>, problem: Problem)
    ensures
        final(problems).deep_view() == old(problems).deep_view().push(problem@),
{
    problems.push(problem);
}

} // verus!
