//! Packing one value from what the parser gave for a text.

use vstd::prelude::*;
use itertools::Itertools;
use crate::errors::{ErrorView, PackingError};
use crate::grammar::Rule;
use crate::pack_trees::{Model, TokenPacker};
use crate::tree::{trees_view, RawNode, SyntaxTree, Tree};
use crate::timesheet::{concrete_all, raw_views};

verus! {

/// Why no value was packed from a text.
#[derive(Debug)]
pub enum RuleParseError {
    /// The parser did not give exactly one node.
    ExactlyOne(String),
    /// The node could not be packed.
    Packing(PackingError<Rule>),
}

/// The mathematical content of a [`RuleParseError`].
pub enum RuleParseErrorView {
    ExactlyOne(Seq<char>),
    Packing(ErrorView<Rule>),
}

impl View for RuleParseError {
    type V = RuleParseErrorView;

    open spec fn view(&self) -> RuleParseErrorView {
        match *self {
            RuleParseError::ExactlyOne(message) => RuleParseErrorView::ExactlyOne(message@),
            RuleParseError::Packing(e) => RuleParseErrorView::Packing(e@),
        }
    }
}

impl RuleParseError {
    /// The message of the error.
    pub fn render(&self) -> (text: String)
        ensures
            text@ == match self@ {
                RuleParseErrorView::ExactlyOne(message) => message,
                RuleParseErrorView::Packing(e) => e.rendered(),
            },
    {
        match self {
            RuleParseError::ExactlyOne(message) => message.clone(),
            RuleParseError::Packing(e) => e.render(),
        }
    }
}

/// The message for a count of nodes that is not one.
pub open spec fn not_exactly_one(count: nat) -> Seq<char> {
    if count == 0 {
        "got zero elements when exactly one was expected"@
    } else {
        "got at least 2 elements when exactly one was expected"@
    }
}

/// What packing a single value from the nodes of the parser gives: exactly
/// one node must have been parsed, and its concrete tree is packed as `S`.
pub open spec fn parsed_struct<S: TokenPacker<Rule = Rule>>(nodes: Seq<Tree<Rule>>) -> Result<
    S::V,
    RuleParseErrorView,
> {
    if nodes.len() == 1 {
        match S::packed(nodes[0].concrete()) {
            Ok(value) => Ok(value),
            Err(e) => Err(RuleParseErrorView::Packing(e)),
        }
    } else {
        Err(RuleParseErrorView::ExactlyOne(not_exactly_one(nodes.len())))
    }
}

/// Calls `Itertools::exactly_one`, which gives the only item where there is
/// exactly one, and else an error whose message tells none from several.
#[verifier::external_body]
fn exactly_one_tree(trees: Vec<SyntaxTree<Rule>>) -> (r: Result<SyntaxTree<Rule>, String>)
    ensures
        match r {
            Ok(tree) => trees@.len() == 1 && tree == trees@[0],
            Err(message) => trees@.len() != 1 && message@ == not_exactly_one(trees@.len()),
        },
{
    match trees.into_iter().exactly_one() {
        Ok(tree) => Ok(tree),
        Err(e) => Err(format!("{}", e)),
    }
}

/// Packs a single value from the nodes that the parser gave for a text.
pub fn parse_struct<S: TokenPacker<Rule = Rule>>(nodes: Vec<RawNode<Rule>>) -> (r: Result<
    S,
    RuleParseError,
>)
    ensures
        match r {
            Ok(value) => parsed_struct::<S>(raw_views(nodes@)) == Ok::<S::V, RuleParseErrorView>(
                value.model(),
            ),
            Err(e) => parsed_struct::<S>(raw_views(nodes@)) == Err::<S::V, RuleParseErrorView>(e@),
        },
{
    let ghost sources = nodes@;
    let mut trees: Vec<SyntaxTree<Rule>> = Vec::new();
    assert(trees_view(trees@) =~= concrete_all(raw_views(sources)).take(0));
    for node in iter: nodes
        invariant
            iter.seq() == sources,
            trees@.len() == iter.index(),
            trees_view(trees@) == concrete_all(raw_views(sources)).take(iter.index() as int),
    {
        let ghost before = trees@;
        let tree = SyntaxTree::from(node);
        trees.push(tree);
        assert(trees_view(trees@) =~= trees_view(before).push(tree@));
        assert(trees_view(trees@) =~= concrete_all(raw_views(sources)).take(iter.index() + 1));
    }
    assert(trees_view(trees@) =~= concrete_all(raw_views(sources)));
    assert(trees@.len() == sources.len());
    proof {
        if sources.len() == 1 {
            assert(trees_view(trees@)[0] == trees@[0]@);
            assert(concrete_all(raw_views(sources))[0] == raw_views(sources)[0].concrete());
        }
    }
    match exactly_one_tree(trees) {
        Err(message) => Err(RuleParseError::ExactlyOne(message)),
        Ok(tree) => match S::pack(tree) {
            Ok(value) => Ok(value),
            Err(e) => Err(RuleParseError::Packing(e)),
        },
    }
}

} // verus!
