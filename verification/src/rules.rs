//! What the packing engine needs to know about grammar rules.

use vstd::prelude::*;

verus! {

/// An identifier of one grammar production: copyable, comparable and printable.
/// A rule type that is written without proofs gives the two functions that
/// run, and leaves the name in ghost code as it stands here.
pub trait RuleType: Copy + Sized {
    /// The printable name of the rule. A verified rule type says what it is.
    open spec fn name_spec(self) -> Seq<char> {
        arbitrary()
    }

    /// Whether two rules are the same rule.
    fn same(&self, other: &Self) -> (same: bool)
        ensures
            same == (*self == *other),
    ;

    /// The printable name of the rule, as diagnostics show it.
    fn name(&self) -> (name: String)
        ensures
            name@ == self.name_spec(),
    ;
}

/// Rules that say which rules are trivia beneath them: children tagged with
/// one of these are left out of the concrete tree.
pub trait DropRules: RuleType {
    /// The trivia rules beneath a node of this rule. A verified rule type
    /// says which they are.
    open spec fn drop_rules(self) -> Seq<Self> {
        arbitrary()
    }

    /// The trivia rules beneath a node of this rule.
    fn get_drop_rules(&self) -> (rules: Vec<Self>)
        ensures
            rules@ == self.drop_rules(),
    ;
}

} // verus!
