//! Rules and the configuration that holds them.

use vstd::prelude::*;

verus! {

/// One group of header predicates: a mapping from header names to patterns, all
/// of which must hold. No name occurs twice; the entries keep the order in which
/// their names first came.
#[derive(Debug)]
pub struct HeaderGroup {
    entries: Vec<(String, String)>,
}

/// Whether no two entries have the same name.
pub open spec fn distinct_names(entries: Seq<(Seq<char>, Seq<char>)>) -> bool {
    forall|i: int, j: int|
        0 <= i < j < entries.len() ==> (#[trigger] entries[i]).0 != (#[trigger] entries[j]).0
}

/// Whether some entry has the name `name`.
pub open spec fn has_name(entries: Seq<(Seq<char>, Seq<char>)>, name: Seq<char>) -> bool {
    exists|i: int| 0 <= i < entries.len() && (#[trigger] entries[i]).0 == name
}

/// The entries after `name` has been given `pattern`: the entry with that name now
/// holds the pattern; where there was none, a new entry stands at the end.
pub open spec fn with_entry(
    entries: Seq<(Seq<char>, Seq<char>)>,
    name: Seq<char>,
    pattern: Seq<char>,
) -> Seq<(Seq<char>, Seq<char>)> {
    if has_name(entries, name) {
        Seq::new(
            entries.len(),
            |i: int|
                if entries[i].0 == name {
                    (name, pattern)
                } else {
                    entries[i]
                },
        )
    } else {
        entries.push((name, pattern))
    }
}

impl View for HeaderGroup {
    type V = Seq<(Seq<char>, Seq<char>)>;

    closed spec fn view(&self) -> Seq<(Seq<char>, Seq<char>)> {
        self.entries.deep_view()
    }
}

impl DeepView for HeaderGroup {
    type V = Seq<(Seq<char>, Seq<char>)>;

    open spec fn deep_view(&self) -> Seq<(Seq<char>, Seq<char>)> {
        self@
    }
}

impl HeaderGroup {
    #[verifier::type_invariant]
    spec fn names_are_distinct(&self) -> bool {
        distinct_names(self.entries.deep_view())
    }

    /// A group without entries.
    pub fn new() -> (group: HeaderGroup)
        ensures
            group@ == Seq::<(Seq<char>, Seq<char>)>::empty(),
    {
        HeaderGroup { entries: Vec::new() }
    }

    /// The number of entries.
    pub fn len(&self) -> (n: usize)
        ensures
            n == self@.len(),
    {
        self.entries.len()
    }

    /// The header name of the entry at `i`.
    pub fn name(&self, i: usize) -> (name: &String)
        requires
            i < self@.len(),
        ensures
            name@ == self@[i as int].0,
    {
        &self.entries[i].0
    }

    /// The pattern of the entry at `i`.
    pub fn pattern(&self, i: usize) -> (pattern: &String)
        requires
            i < self@.len(),
        ensures
            pattern@ == self@[i as int].1,
    {
        &self.entries[i].1
    }

    /// Gives `name` the pattern `pattern`, in place of the one it had, if any.
    pub fn insert(&mut self, name: String, pattern: String)
        ensures
            final(self)@ == with_entry(old(self)@, name@, pattern@),
    {
        proof {
            use_type_invariant(&*self);
        }
        let ghost before = self.entries.deep_view();
        let mut entries: Vec<(String, String)> = Vec::new();
        std::mem::swap(&mut self.entries, &mut entries);
        let mut i: usize = 0;
        while i < entries.len()
            invariant
                i <= entries.len(),
                entries.deep_view() == before,
                forall|j: int| 0 <= j < i ==> (#[trigger] before[j]).0 != name@,
            ensures
                i < entries.len() ==> before[i as int].0 == name@,
            decreases entries.len() - i,
        {
            if entries[i].0 == name {
                break ;
            }
            i += 1;
        }
        if i < entries.len() {
            entries.set(i, (name, pattern));
            proof {
                let after = entries.deep_view();
                assert forall|k: int| 0 <= k < before.len() implies after[k] == (if before[k].0
                    == name@ {
                    (name@, pattern@)
                } else {
                    before[k]
                }) by {}
                assert forall|a: int, b: int| 0 <= a < b < after.len() implies (#[trigger] after[a]).0
                    != (#[trigger] after[b]).0 by {}
            }
        } else {
            entries.push((name, pattern));
            proof {
                let after = entries.deep_view();
                assert forall|a: int, b: int| 0 <= a < b < after.len() implies (#[trigger] after[a]).0
                    != (#[trigger] after[b]).0 by {
                    if b < before.len() {
                        assert(before[a].0 != before[b].0);
                    } else {
                        assert(before[a].0 != name@);
                    }
                }
            }
        }
        self.entries = entries;
    }

    /// The mapping holds no name twice.
    pub fn names_distinct(&self)
        ensures
            distinct_names(self@),
    {
        proof {
            use_type_invariant(self);
        }
    }
}

impl Clone for HeaderGroup {
    fn clone(&self) -> (copy: HeaderGroup)
        ensures
            copy@ == self@,
    {
        proof {
            use_type_invariant(self);
        }
        let mut entries: Vec<(String, String)> = Vec::new();
        let mut i: usize = 0;
        while i < self.entries.len()
            invariant
                i <= self.entries.len(),
                entries.deep_view() =~= self.entries.deep_view().take(i as int),
            decreases self.entries.len() - i,
        {
            let name = self.entries[i].0.clone();
            let pattern = self.entries[i].1.clone();
            entries.push((name, pattern));
            proof {
                let all = self.entries.deep_view();
                assert(all.take(i + 1) =~= all.take(i as int).push(all[i as int]));
            }
            i += 1;
        }
        HeaderGroup { entries }
    }
}

/// One rule: what a message must look like, and what is done with one that does.
/// A part that is `None` asks nothing of the message.
#[derive(Clone, Debug)]
pub struct Rule {
    /// Groups of header predicates. One group must hold, in all its entries.
    pub headers: Option<Vec<HeaderGroup>>,
    /// Groups of patterns for the decoded body text. One group must hold, in all
    /// its patterns.
    pub body: Option<Vec<Vec<String>>>,
    /// Groups of patterns for the raw bytes of the message. One group must hold,
    /// in all its patterns.
    pub raw: Option<Vec<Vec<String>>>,
    /// The commands that are run, in this order, on a message that matches. Each
    /// is a program and its arguments.
    pub action: Option<Vec<Vec<String>>>,
    /// A command through which the message goes before it is matched.
    pub filter: Option<Vec<String>>,
}

/// The mathematical value of a [`Rule`].
pub ghost struct RuleModel {
    pub headers: Option<Seq<Seq<(Seq<char>, Seq<char>)>>>,
    pub body: Option<Seq<Seq<Seq<char>>>>,
    pub raw: Option<Seq<Seq<Seq<char>>>>,
    pub action: Option<Seq<Seq<Seq<char>>>>,
    pub filter: Option<Seq<Seq<char>>>,
}

impl View for Rule {
    type V = RuleModel;

    open spec fn view(&self) -> RuleModel {
        RuleModel {
            headers: self.headers.deep_view(),
            body: self.body.deep_view(),
            raw: self.raw.deep_view(),
            action: self.action.deep_view(),
            filter: self.filter.deep_view(),
        }
    }
}

impl DeepView for Rule {
    type V = RuleModel;

    open spec fn deep_view(&self) -> RuleModel {
        self@
    }
}

impl Rule {
    /// A rule that asks nothing and does nothing.
    pub fn new() -> (rule: Rule)
        ensures
            rule@ == (RuleModel { headers: None, body: None, raw: None, action: None, filter: None }),
    {
        Rule { headers: None, body: None, raw: None, action: None, filter: None }
    }
}

/// An ordered list of rules. The order of the list is the order in which the
/// rules are tried.
#[derive(Clone, Debug)]
pub struct Config {
    pub version: usize,
    pub rules: Vec<Rule>,
}

/// The mathematical value of a [`Config`].
pub ghost struct ConfigModel {
    pub version: nat,
    pub rules: Seq<RuleModel>,
}

impl View for Config {
    type V = ConfigModel;

    open spec fn view(&self) -> ConfigModel {
        ConfigModel { version: self.version as nat, rules: self.rules.deep_view() }
    }
}

impl Config {
    /// A configuration of the given rules.
    pub fn new(version: usize, rules: Vec<Rule>) -> (config: Config)
        ensures
            config@ == (ConfigModel { version: version as nat, rules: rules.deep_view() }),
    {
        Config { version, rules }
    }
}

} // verus!
