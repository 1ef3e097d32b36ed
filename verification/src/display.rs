//! Rules and problems in words, for logs and reports.

use vstd::prelude::*;
use vstd::string::StringExecFns;
use crate::problem::{Part, Problem, ProblemModel};
use crate::rule::{Config, HeaderGroup, Rule, RuleModel};

verus! {

/// The parts in their order, with `sep` between each two of them.
pub open spec fn joined(parts: Seq<Seq<char>>, sep: Seq<char>) -> Seq<char>
    decreases parts.len(),
{
    if parts.len() == 0 {
        Seq::empty()
    } else if parts.len() == 1 {
        parts[0]
    } else {
        joined(parts.drop_last(), sep) + sep + parts.last()
    }
}

/// One header predicate in words: `(name: pattern)`.
pub open spec fn entry_text(entry: (Seq<char>, Seq<char>)) -> Seq<char> {
    "("@ + entry.0 + ": "@ + entry.1 + ")"@
}

/// One header group in words: its entries in brackets, with `AND` between them.
pub open spec fn header_group_text(group: Seq<(Seq<char>, Seq<char>)>) -> Seq<char> {
    "("@ + joined(group.map_values(|entry: (Seq<char>, Seq<char>)| entry_text(entry)), " AND "@)
        + ")"@
}

/// One group of patterns in words: the patterns in brackets, with `AND` between
/// them.
pub open spec fn group_text(group: Seq<Seq<char>>) -> Seq<char> {
    "("@ + joined(group, " AND "@) + ")"@
}

/// The header part in words: its groups with `OR` between them. Nothing where
/// the rule does not constrain the headers.
pub open spec fn headers_text(groups: Option<Seq<Seq<(Seq<char>, Seq<char>)>>>) -> Seq<char> {
    match groups {
        Some(gs) => joined(
            gs.map_values(|group: Seq<(Seq<char>, Seq<char>)>| header_group_text(group)),
            " OR "@,
        ),
        None => Seq::empty(),
    }
}

/// A body or raw part in words: its groups with `OR` between them. Nothing where
/// the rule does not constrain the part.
pub open spec fn part_text(groups: Option<Seq<Seq<Seq<char>>>>) -> Seq<char> {
    match groups {
        Some(gs) => joined(gs.map_values(|group: Seq<Seq<char>>| group_text(group)), " OR "@),
        None => Seq::empty(),
    }
}

/// A rule in words: what it asks of the headers, of the body and of the raw
/// bytes.
pub open spec fn rule_text(rule: RuleModel) -> Seq<char> {
    "headers: "@ + headers_text(rule.headers) + "; body: "@ + part_text(rule.body) + "; raw: "@
        + part_text(rule.raw)
}

/// Joins the parts, with `sep` between each two of them.
pub fn join(parts: &Vec<String>, sep: &str) -> (text: String)
    ensures
        text@ == joined(parts.deep_view(), sep@),
{
    let ghost models = parts.deep_view();
    let mut text = String::new();
    let mut i: usize = 0;
    while i < parts.len()
        invariant
            i <= parts.len(),
            models == parts.deep_view(),
            text@ == joined(models.take(i as int), sep@),
        decreases parts.len() - i,
    {
        proof {
            assert(models.take(i + 1).drop_last() =~= models.take(i as int));
        }
        if i > 0 {
            text.append(sep);
        }
        text.append(parts[i].as_str());
        i += 1;
    }
    assert(models.take(models.len() as int) =~= models);
    text
}

/// Puts a text in brackets.
fn bracketed(inner: &str) -> (text: String)
    ensures
        text@ == "("@ + inner@ + ")"@,
{
    let mut text = String::from_str("(");
    text.append(inner);
    text.append(")");
    text
}

/// Writes one header group in words.
fn write_header_group(group: &HeaderGroup) -> (text: String)
    ensures
        text@ == header_group_text(group@),
{
    let ghost words = |entry: (Seq<char>, Seq<char>)| entry_text(entry);
    let mut entries: Vec<String> = Vec::new();
    let mut i: usize = 0;
    while i < group.len()
        invariant
            i <= group@.len(),
            words == |entry: (Seq<char>, Seq<char>)| entry_text(entry),
            entries.deep_view() == group@.take(i as int).map_values(words),
        decreases group@.len() - i,
    {
        let mut entry = String::from_str("(");
        entry.append(group.name(i).as_str());
        entry.append(": ");
        entry.append(group.pattern(i).as_str());
        entry.append(")");
        entries.push(entry);
        proof {
            assert(group@.take(i + 1).map_values(words) =~= group@.take(i as int).map_values(
                words,
            ).push(words(group@[i as int])));
        }
        i += 1;
    }
    assert(group@.take(group@.len() as int) =~= group@);
    let inner = join(&entries, " AND ");
    bracketed(inner.as_str())
}

/// Writes the header part in words.
fn write_headers(groups: &Option<Vec<HeaderGroup>>) -> (text: String)
    ensures
        text@ == headers_text(groups.deep_view()),
{
    match groups {
        None => String::new(),
        Some(gs) => {
            let ghost words = |group: Seq<(Seq<char>, Seq<char>)>| header_group_text(group);
            let ghost models = gs.deep_view();
            let mut texts: Vec<String> = Vec::new();
            let mut i: usize = 0;
            while i < gs.len()
                invariant
                    i <= gs.len(),
                    models == gs.deep_view(),
                    words == |group: Seq<(Seq<char>, Seq<char>)>| header_group_text(group),
                    texts.deep_view() == models.take(i as int).map_values(words),
                decreases gs.len() - i,
            {
                let text = write_header_group(&gs[i]);
                texts.push(text);
                proof {
                    assert(models.take(i + 1).map_values(words) =~= models.take(i as int).map_values(
                        words,
                    ).push(words(models[i as int])));
                }
                i += 1;
            }
            assert(models.take(models.len() as int) =~= models);
            join(&texts, " OR ")
        },
    }
}

/// Writes a body or raw part in words.
fn write_part(groups: &Option<Vec<Vec<String>>>) -> (text: String)
    ensures
        text@ == part_text(groups.deep_view()),
{
    match groups {
        None => String::new(),
        Some(gs) => {
            let ghost words = |group: Seq<Seq<char>>| group_text(group);
            let ghost models = gs.deep_view();
            let mut texts: Vec<String> = Vec::new();
            let mut i: usize = 0;
            while i < gs.len()
                invariant
                    i <= gs.len(),
                    models == gs.deep_view(),
                    words == |group: Seq<Seq<char>>| group_text(group),
                    texts.deep_view() == models.take(i as int).map_values(words),
                decreases gs.len() - i,
            {
                let inner = join(&gs[i], " AND ");
                let text = bracketed(inner.as_str());
                texts.push(text);
                proof {
                    assert(models.take(i + 1).map_values(words) =~= models.take(i as int).map_values(
                        words,
                    ).push(words(models[i as int])));
                }
                i += 1;
            }
            assert(models.take(models.len() as int) =~= models);
            join(&texts, " OR ")
        },
    }
}

impl Rule {
    /// The rule in words, as in `headers: ((From: alice) AND (To: bob)); body:
    /// (a AND b) OR (c); raw: `. Actions and filter are left out.
    pub fn to_string(&self) -> (text: String)
        ensures
            text@ == rule_text(self@),
    {
        let mut text = String::from_str("headers: ");
        text.append(write_headers(&self.headers).as_str());
        text.append("; body: ");
        text.append(write_part(&self.body).as_str());
        text.append("; raw: ");
        text.append(write_part(&self.raw).as_str());
        text
    }
}

/// The name of a part of a message.
pub open spec fn part_name(part: Part) -> Seq<char> {
    match part {
        Part::Headers => "headers"@,
        Part::Body => "body"@,
        Part::Raw => "raw"@,
    }
}

/// The rule at `index` in words. Nothing where there is no such rule.
pub open spec fn rule_text_at(rules: Seq<RuleModel>, index: int) -> Seq<char> {
    if 0 <= index < rules.len() {
        rule_text(rules[index])
    } else {
        Seq::empty()
    }
}

/// A problem in words. A problem of a rule names the rule in words.
pub open spec fn problem_text(rules: Seq<RuleModel>, problem: ProblemModel) -> Seq<char> {
    match problem {
        ProblemModel::NotFound { program } => program + " not found"@,
        ProblemModel::EmptyAction { rule } => "Empty action for rule "@ + rule_text_at(rules, rule),
        ProblemModel::EmptyFilter { rule } => "Empty filter for rule "@ + rule_text_at(rules, rule),
        ProblemModel::EmptyPart { rule, part } => "Empty "@ + part_name(part) + " set for rule "@
            + rule_text_at(rules, rule),
        ProblemModel::EmptyGroup { rule, part } => "Empty "@ + part_name(part) + " set in rule "@
            + rule_text_at(rules, rule),
        ProblemModel::BadPattern { pattern } => "Could not compile regex "@ + pattern,
        ProblemModel::FilterFailed { rule } => "Rule filter failed for rule "@ + rule_text_at(
            rules,
            rule,
        ),
        ProblemModel::FilterUnparsed { rule } => "Could not parse output from filter for rule "@
            + rule_text_at(rules, rule),
    }
}

impl Part {
    /// The name of the part.
    pub fn name(&self) -> (name: &'static str)
        ensures
            name@ == part_name(*self),
    {
        match self {
            Part::Headers => "headers",
            Part::Body => "body",
            Part::Raw => "raw",
        }
    }
}

impl Config {
    /// The rule at `index` in words. Nothing where there is no such rule.
    fn rule_words(&self, index: usize) -> (text: String)
        ensures
            text@ == rule_text_at(self@.rules, index as int),
    {
        if index < self.rules.len() {
            self.rules[index].to_string()
        } else {
            String::new()
        }
    }

    /// A problem of this configuration in words.
    pub fn describe(&self, problem: &Problem) -> (text: String)
        ensures
            text@ == problem_text(self@.rules, problem@),
    {
        match problem {
            Problem::NotFound { program } => {
                let mut text = program.clone();
                text.append(" not found");
                text
            },
            Problem::EmptyAction { rule } => {
                let mut text = String::from_str("Empty action for rule ");
                text.append(self.rule_words(*rule).as_str());
                text
            },
            Problem::EmptyFilter { rule } => {
                let mut text = String::from_str("Empty filter for rule ");
                text.append(self.rule_words(*rule).as_str());
                text
            },
            Problem::EmptyPart { rule, part } => {
                let mut text = String::from_str("Empty ");
                text.append(part.name());
                text.append(" set for rule ");
                text.append(self.rule_words(*rule).as_str());
                text
            },
            Problem::EmptyGroup { rule, part } => {
                let mut text = String::from_str("Empty ");
                text.append(part.name());
                text.append(" set in rule ");
                text.append(self.rule_words(*rule).as_str());
                text
            },
            Problem::BadPattern { pattern } => {
                let mut text = String::from_str("Could not compile regex ");
                text.append(pattern.as_str());
                text
            },
            Problem::FilterFailed { rule } => {
                let mut text = String::from_str("Rule filter failed for rule ");
                text.append(self.rule_words(*rule).as_str());
                text
            },
            Problem::FilterUnparsed { rule } => {
                let mut text = String::from_str("Could not parse output from filter for rule ");
                text.append(self.rule_words(*rule).as_str());
                text
            },
        }
    }
}

} // verus!
