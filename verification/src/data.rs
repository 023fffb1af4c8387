//! The rule set and its lookup.

use crate::pattern::{ends_with, starts_with};
use vstd::prelude::*;

verus! {

/// One configured rule as contracts see it.
pub struct Rule {
    /// The literal text held against one end of a path.
    pub pattern: Seq<char>,
    /// The header value the rule gives to a path it applies to.
    pub value: Seq<char>,
}

/// The end of a path that a list of rules is held against.
pub enum Side {
    /// The pattern has to open the path.
    Start,
    /// The pattern has to close the path.
    End,
}

/// The rules of one configured list, in configured order. An absent list
/// holds no rule.
pub open spec fn rules_of(list: Option<Vec<(String, String)>>) -> Seq<Rule> {
    match list {
        Some(pairs) => Seq::new(
            pairs@.len(),
            |i: int| Rule { pattern: pairs@[i].0@, value: pairs@[i].1@ },
        ),
        None => Seq::empty(),
    }
}

/// Whether `rule` applies to `path` when its pattern is held against `side`.
pub open spec fn applies(rule: Rule, path: Seq<char>, side: Side) -> bool {
    match side {
        Side::Start => rule.pattern.is_prefix_of(path),
        Side::End => rule.pattern.is_suffix_of(path),
    }
}

/// Whether the rule at `i` applies to `path` and no rule before it does.
pub open spec fn is_first_hit(rules: Seq<Rule>, path: Seq<char>, side: Side, i: int) -> bool {
    &&& 0 <= i < rules.len()
    &&& applies(rules[i], path, side)
    &&& forall|j: int| 0 <= j < i ==> !applies(#[trigger] rules[j], path, side)
}

/// The index of the first rule of `rules` that applies to `path`. It means
/// nothing where no rule applies.
pub open spec fn first_hit_at(rules: Seq<Rule>, path: Seq<char>, side: Side) -> int {
    choose|i: int| is_first_hit(rules, path, side, i)
}

/// The value of the first rule of `rules` that applies to `path`, if one does.
pub open spec fn first_hit(rules: Seq<Rule>, path: Seq<char>, side: Side) -> Option<Seq<char>> {
    if exists|i: int| is_first_hit(rules, path, side, i) {
        Some(rules[first_hit_at(rules, path, side)].value)
    } else {
        None
    }
}

/// The text behind a looked-up value.
pub open spec fn text_of(found: Option<&str>) -> Option<Seq<char>> {
    match found {
        Some(value) => Some(value@),
        None => None,
    }
}

/// Cache-control instructions by path: two ordered lists of
/// (pattern, value) pairs, one matched against the end of a path and one
/// against its start.
#[derive(Clone, Debug)]
pub struct CacheControl {
    /// Instructions for paths that start with a listed prefix.
    pub prefixes: Option<Vec<(String, String)>>,
    /// Instructions for paths that end with a listed suffix.
    pub suffixes: Option<Vec<(String, String)>>,
}

impl CacheControl {
    /// The rule set that holds neither list.
    pub open spec fn without_rules() -> CacheControl {
        CacheControl { prefixes: None, suffixes: None }
    }

    /// The suffix rules, in configured order.
    pub open spec fn suffix_rules(&self) -> Seq<Rule> {
        rules_of(self.suffixes)
    }

    /// The prefix rules, in configured order.
    pub open spec fn prefix_rules(&self) -> Seq<Rule> {
        rules_of(self.prefixes)
    }

    /// The value that `path` resolves to: that of the first suffix rule that
    /// applies, else that of the first prefix rule that applies, else none.
    pub open spec fn lookup(&self, path: Seq<char>) -> Option<Seq<char>> {
        let by_suffix = first_hit(self.suffix_rules(), path, Side::End);
        if by_suffix is Some {
            by_suffix
        } else {
            first_hit(self.prefix_rules(), path, Side::Start)
        }
    }

    /// Without rules no path resolves to a value.
    pub proof fn lookup_without_rules(&self, path: Seq<char>)
        requires
            self.suffix_rules().len() == 0,
            self.prefix_rules().len() == 0,
        ensures
            self.lookup(path) is None,
    {
    }

    /// Where some suffix rule, here the one at `k`, applies to `path`, the
    /// path resolves to the value of the suffix rule with the lowest index
    /// among those that apply, whatever the prefix rules are.
    pub proof fn lookup_takes_first_suffix(&self, path: Seq<char>, k: int)
        requires
            0 <= k < self.suffix_rules().len(),
            applies(self.suffix_rules()[k], path, Side::End),
        ensures
            ({
                let first = first_hit_at(self.suffix_rules(), path, Side::End);
                &&& is_first_hit(self.suffix_rules(), path, Side::End, first)
                &&& first <= k
                &&& self.lookup(path) == Some(self.suffix_rules()[first].value)
            }),
    {
        let first = least_hit(self.suffix_rules(), path, Side::End, k);
        first_hit_is_unique(self.suffix_rules(), path, Side::End, first);
    }

    /// Where no suffix rule applies to `path` and some prefix rule does, here
    /// the one at `k`, the path resolves to the value of the prefix rule with
    /// the lowest index among those that apply.
    pub proof fn lookup_falls_back_to_first_prefix(&self, path: Seq<char>, k: int)
        requires
            forall|j: int|
                0 <= j < self.suffix_rules().len() ==> !applies(
                    #[trigger] self.suffix_rules()[j],
                    path,
                    Side::End,
                ),
            0 <= k < self.prefix_rules().len(),
            applies(self.prefix_rules()[k], path, Side::Start),
        ensures
            ({
                let first = first_hit_at(self.prefix_rules(), path, Side::Start);
                &&& is_first_hit(self.prefix_rules(), path, Side::Start, first)
                &&& first <= k
                &&& self.lookup(path) == Some(self.prefix_rules()[first].value)
            }),
    {
        let first = least_hit(self.prefix_rules(), path, Side::Start, k);
        first_hit_is_unique(self.prefix_rules(), path, Side::Start, first);
    }

    /// Where a suffix rule and a prefix rule both apply to `path`, here those
    /// at `s` and at `p`, the path resolves to the value of a suffix rule:
    /// the first that applies. The prefix rules have no say.
    pub proof fn lookup_prefers_suffix(&self, path: Seq<char>, s: int, p: int)
        requires
            0 <= s < self.suffix_rules().len(),
            applies(self.suffix_rules()[s], path, Side::End),
            0 <= p < self.prefix_rules().len(),
            applies(self.prefix_rules()[p], path, Side::Start),
        ensures
            self.lookup(path) == first_hit(self.suffix_rules(), path, Side::End),
            self.lookup(path) == Some(
                self.suffix_rules()[first_hit_at(self.suffix_rules(), path, Side::End)].value,
            ),
    {
        self.lookup_takes_first_suffix(path, s);
    }

    /// Returns the value of the first rule that matches `path`, suffix rules
    /// before prefix rules. The result borrows from the rule set.
    pub fn get_value(&self, path: &str) -> (found: Option<&str>)
        ensures
            text_of(found) == self.lookup(path@),
    {
        if let Some(suffixes) = &self.suffixes {
            let mut i: usize = 0;
            while i < suffixes.len()
                invariant
                    i <= suffixes.len(),
                    self.suffixes == Some(*suffixes),
                    forall|j: int|
                        0 <= j < i ==> !applies(#[trigger] self.suffix_rules()[j], path@, Side::End),
                decreases suffixes.len() - i,
            {
                if ends_with(path, suffixes[i].0.as_str()) {
                    proof {
                        first_hit_is_unique(self.suffix_rules(), path@, Side::End, i as int);
                    }
                    return Some(suffixes[i].1.as_str());
                }
                i += 1;
            }
        }
        if let Some(prefixes) = &self.prefixes {
            let mut i: usize = 0;
            while i < prefixes.len()
                invariant
                    i <= prefixes.len(),
                    self.prefixes == Some(*prefixes),
                    first_hit(self.suffix_rules(), path@, Side::End) is None,
                    forall|j: int|
                        0 <= j < i ==> !applies(
                            #[trigger] self.prefix_rules()[j],
                            path@,
                            Side::Start,
                        ),
                decreases prefixes.len() - i,
            {
                if starts_with(path, prefixes[i].0.as_str()) {
                    proof {
                        first_hit_is_unique(self.prefix_rules(), path@, Side::Start, i as int);
                    }
                    return Some(prefixes[i].1.as_str());
                }
                i += 1;
            }
        }
        None
    }
}

impl Default for CacheControl {
    /// A rule set without rules.
    fn default() -> (made: Self)
        ensures
            made == CacheControl::without_rules(),
    {
        Self { prefixes: None, suffixes: None }
    }
}

/// Where the rule at `k` applies, some rule at or before `k` is the first to
/// apply.
pub proof fn least_hit(rules: Seq<Rule>, path: Seq<char>, side: Side, k: int) -> (first: int)
    requires
        0 <= k < rules.len(),
        applies(rules[k], path, side),
    ensures
        is_first_hit(rules, path, side, first),
        first <= k,
    decreases k,
{
    if exists|j: int| 0 <= j < k && applies(#[trigger] rules[j], path, side) {
        let j = choose|j: int| 0 <= j < k && applies(#[trigger] rules[j], path, side);
        least_hit(rules, path, side, j)
    } else {
        k
    }
}

/// A list has at most one first hit: where the rule at `i` is one, it is the
/// rule whose value the list gives.
pub proof fn first_hit_is_unique(rules: Seq<Rule>, path: Seq<char>, side: Side, i: int)
    requires
        is_first_hit(rules, path, side, i),
    ensures
        first_hit_at(rules, path, side) == i,
        first_hit(rules, path, side) == Some(rules[i].value),
{
}

} // verus!
