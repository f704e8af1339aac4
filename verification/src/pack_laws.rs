//! What holds of the combinators whatever the packed types are.

use vstd::prelude::*;
use crate::errors::{ErrorView, VariantView};
use crate::pack_trees::{
    alternative, beneath, both, choice, each_packed, found_of, lemma_each_packed_prefix,
    lemma_position, one_packed, only_tree, sign, tree_src_string, two_packed, wrong_alternative,
    TokenPacker,
};
use crate::rules::RuleType;
use crate::tree::Tree;

verus! {

/// A list whose trees all pack gives the packed values, one for each tree and
/// in the order of the trees.
pub proof fn lemma_each_packed_all<P: TokenPacker>(trees: Seq<Tree<P::Rule>>)
    requires
        forall|i: int| 0 <= i < trees.len() ==> P::packed(#[trigger] trees[i]) is Ok,
    ensures
        each_packed::<P>(trees) is Ok,
        each_packed::<P>(trees)->Ok_0.len() == trees.len(),
        forall|i: int|
            0 <= i < trees.len() ==> P::packed(#[trigger] trees[i]) == Ok::<
                P::V,
                ErrorView<P::Rule>,
            >(each_packed::<P>(trees)->Ok_0[i]),
    decreases trees.len(),
{
    if trees.len() > 0 {
        let front = trees.drop_last();
        assert(forall|i: int| 0 <= i < front.len() ==> front[i] == trees[i]);
        lemma_each_packed_all::<P>(front);
        let values = each_packed::<P>(front)->Ok_0;
        let value = P::packed(trees.last())->Ok_0;
        assert(each_packed::<P>(trees) == Ok::<Seq<P::V>, ErrorView<P::Rule>>(values.push(value)));
        assert forall|i: int| 0 <= i < trees.len() implies P::packed(#[trigger] trees[i]) == Ok::<
            P::V,
            ErrorView<P::Rule>,
        >(each_packed::<P>(trees)->Ok_0[i]) by {
            if i < front.len() {
                assert(front[i] == trees[i]);
            }
        }
    }
}

/// Packing a list fails fast: where the tree at place `k` is the first that
/// fails, its failure is the outcome, whatever the trees behind it are.
pub proof fn lemma_each_packed_fails_fast<P: TokenPacker>(
    trees: Seq<Tree<P::Rule>>,
    k: int,
    e: ErrorView<P::Rule>,
)
    requires
        0 <= k < trees.len(),
        forall|i: int| 0 <= i < k ==> P::packed(#[trigger] trees[i]) is Ok,
        P::packed(trees[k]) == Err::<P::V, ErrorView<P::Rule>>(e),
    ensures
        each_packed::<P>(trees) == Err::<Seq<P::V>, ErrorView<P::Rule>>(e),
{
    let before = trees.take(k);
    assert(forall|i: int| 0 <= i < before.len() ==> before[i] == trees[i]);
    lemma_each_packed_all::<P>(before);
    let upto = trees.take(k + 1);
    assert(upto.drop_last() =~= before);
    assert(upto.last() == trees[k]);
    lemma_each_packed_prefix::<P>(trees, k + 1);
}

/// Signing keeps the order in which the levels were crossed: an error that
/// crosses the levels `c`, `b` and `a`, in that order, ends with a trail that
/// is the one it began with, followed by `c`, `b` and `a`.
pub proof fn lemma_sign_order<T, R>(e: ErrorView<R>, c: R, b: R, a: R)
    ensures
        sign(sign(sign(Err::<T, ErrorView<R>>(e), c), b), a) == Err::<T, ErrorView<R>>(
            ErrorView { variant: e.variant, context: e.context + seq![c, b, a] },
        ),
{
    assert(e.context.push(c).push(b).push(a) =~= e.context + seq![c, b, a]);
}

/// Whether two outcomes fail alike: both succeed, or both fail with the same
/// error. It is how a type that wraps what a combinator gives relates to it.
pub open spec fn same_failure<T, U, R>(
    first: Result<T, ErrorView<R>>,
    second: Result<U, ErrorView<R>>,
) -> bool {
    match (first, second) {
        (Ok(_), Ok(_)) => true,
        (Err(a), Err(b)) => a == b,
        _ => false,
    }
}

/// The trail lists the innermost rule first. Let `A` be built from the only
/// child of its node packed as `B`, `B` from the only child of its node
/// packed as `C`, and `C` from the text of a leaf. Where the node of `A`
/// holds a node of `B` that holds a node at which the leaf check of `C`
/// fails, packing `A` fails with that failure, and its trail is the rule of
/// `C`, then the rule of `B`, then the rule of `A`.
pub proof fn lemma_context_accumulates_innermost_first<A, B, C, R>(top: Tree<R>) where
    R: RuleType,
    A: TokenPacker<Rule = R>,
    B: TokenPacker<Rule = R>,
    C: TokenPacker<Rule = R>,

    requires
        top.rule == A::rule(),
        top.children.len() == 1,
        top.children[0].rule == B::rule(),
        top.children[0].children.len() == 1,
        same_failure(A::packed(top), beneath(top, A::rule(), one_packed::<B>(top.children))),
        same_failure(
            B::packed(top.children[0]),
            beneath(top.children[0], B::rule(), one_packed::<C>(top.children[0].children)),
        ),
        same_failure(
            C::packed(top.children[0].children[0]),
            tree_src_string(top.children[0].children[0], C::rule()),
        ),
        tree_src_string(top.children[0].children[0], C::rule()) is Err,
    ensures
        A::packed(top) is Err,
        A::packed(top)->Err_0.context == seq![C::rule(), B::rule(), A::rule()],
        A::packed(top)->Err_0.variant == tree_src_string(
            top.children[0].children[0],
            C::rule(),
        )->Err_0.variant,
{
    let leaf = top.children[0].children[0];
    let inner = tree_src_string(leaf, C::rule())->Err_0;
    assert(inner.context =~= seq![C::rule()]);
    assert(inner.context.push(B::rule()).push(A::rule()) =~= seq![C::rule(), B::rule(), A::rule()]);
}

/// Alternation selects by the node's rule. Among the candidates `r1`, `r2`
/// and `r3`, tried in that order, a node of rule `r2` selects the second and
/// no other; a node whose rule is none of the three is a `WrongAlternative`
/// that names the node and all three candidates.
pub proof fn lemma_alternation<R>(tree: Tree<R>, r1: R, r2: R, r3: R)
    ensures
        tree.rule == r2 && r1 != r2 ==> alternative(tree, seq![r1, r2, r3]) == Ok::<
            int,
            ErrorView<R>,
        >(1),
        tree.rule != r1 && tree.rule != r2 && tree.rule != r3 ==> alternative(
            tree,
            seq![r1, r2, r3],
        ) == Err::<int, ErrorView<R>>(
            ErrorView {
                variant: VariantView::WrongAlternative {
                    found: (tree.rule, tree.providence.src),
                    expected: seq![r1, r2, r3],
                },
                context: Seq::empty(),
            },
        ),
{
    lemma_position(seq![r1, r2, r3], tree.rule);
}

/// A choice dispatches by the rule of the only child. Beneath a node of the
/// expected rule whose only child carries `r2`, the choice among `r1`, `r2`
/// and `r3` is what packing the child as the second candidate gives, signed
/// by the expected rule: the first and the third are not asked. Where the
/// child carries none of the three, the choice is the `WrongAlternative` that
/// names the child and all three, signed by the expected rule.
pub proof fn lemma_choice_dispatches<T, R>(
    tree: Tree<R>,
    expected_rule: R,
    r1: R,
    r2: R,
    r3: R,
    chosen: spec_fn(int, Tree<R>) -> Result<T, ErrorView<R>>,
)
    requires
        tree.rule == expected_rule,
        tree.children.len() == 1,
    ensures
        tree.children[0].rule == r2 && r1 != r2 ==> choice(
            tree,
            expected_rule,
            seq![r1, r2, r3],
            chosen,
        ) == sign(chosen(1, tree.children[0]), expected_rule),
        tree.children[0].rule != r1 && tree.children[0].rule != r2 && tree.children[0].rule != r3
            ==> choice(tree, expected_rule, seq![r1, r2, r3], chosen) == Err::<T, ErrorView<R>>(
            wrong_alternative(tree.children[0], seq![r1, r2, r3]).with_rule(expected_rule),
        ),
{
    lemma_alternation(tree.children[0], r1, r2, r3);
}

/// Alternation selects the first candidate that is the node's rule, and a
/// candidate is selected exactly when the node's rule is among the candidates.
pub proof fn lemma_alternative_selects_first<R>(tree: Tree<R>, candidates: Seq<R>)
    ensures
        alternative(tree, candidates) is Ok <==> candidates.contains(tree.rule),
        alternative(tree, candidates) matches Ok(at) ==> {
            &&& 0 <= at < candidates.len()
            &&& candidates[at] == tree.rule
            &&& forall|j: int| 0 <= j < at ==> candidates[j] != tree.rule
        },
        alternative(tree, candidates) matches Err(e) ==> e == wrong_alternative(tree, candidates),
{
    lemma_position(candidates, tree.rule);
}

/// Two children are wanted, no fewer and no more. One tree is `TooFew` with
/// an expected count of two, three and more are `TooMany` with an expected
/// count of two, and exactly two are packed by their places: the first as
/// `Pa`, the second as `Pb`.
pub proof fn lemma_two_children_exactness<Pa, Pb, R>(trees: Seq<Tree<R>>) where
    R: RuleType,
    Pa: TokenPacker<Rule = R>,
    Pb: TokenPacker<Rule = R>,

    ensures
        trees.len() == 1 ==> two_packed::<Pa, Pb, R>(trees) == Err::<(Pa::V, Pb::V), ErrorView<R>>(
            ErrorView {
                variant: VariantView::TooFew {
                    present: seq![found_of(trees[0])],
                    expected: Some(seq![Pa::rule(), Pb::rule()]),
                    expected_count: 2,
                },
                context: Seq::empty(),
            },
        ),
        trees.len() >= 3 ==> two_packed::<Pa, Pb, R>(trees) == Err::<(Pa::V, Pb::V), ErrorView<R>>(
            ErrorView {
                variant: VariantView::TooMany {
                    present: seq![found_of(trees[0]), found_of(trees[1]), found_of(trees[2])],
                    expected: Some(seq![Pa::rule(), Pb::rule()]),
                    expected_count: 2,
                },
                context: Seq::empty(),
            },
        ),
        trees.len() == 2 ==> two_packed::<Pa, Pb, R>(trees) == both(
            Pa::packed(trees[0]),
            Pb::packed(trees[1]),
        ),
        trees.len() == 2 ==> (two_packed::<Pa, Pb, R>(trees) matches Ok(pair) ==> Pa::packed(
            trees[0],
        ) == Ok::<Pa::V, ErrorView<R>>(pair.0) && Pb::packed(trees[1]) == Ok::<
            Pb::V,
            ErrorView<R>,
        >(pair.1)),
{
}

/// Exactly one tree is wanted at the root, as anywhere else: no tree is
/// `NoChildrenFound`, two and more are `TooMany` of the first two with an
/// expected count of one; the first tree is never picked from among several.
/// These are the errors that packing the only child of a node gives for the
/// same counts.
pub proof fn lemma_only_tree_arity<P: TokenPacker>(trees: Seq<Tree<P::Rule>>)
    ensures
        only_tree(trees) is Ok <==> trees.len() == 1,
        trees.len() == 1 ==> only_tree(trees) == Ok::<Tree<P::Rule>, ErrorView<P::Rule>>(trees[0]),
        trees.len() == 0 ==> only_tree(trees) == Err::<Tree<P::Rule>, ErrorView<P::Rule>>(
            ErrorView {
                variant: VariantView::NoChildrenFound { expected: None },
                context: Seq::empty(),
            },
        ),
        trees.len() >= 2 ==> only_tree(trees) == Err::<Tree<P::Rule>, ErrorView<P::Rule>>(
            ErrorView {
                variant: VariantView::TooMany {
                    present: seq![found_of(trees[0]), found_of(trees[1])],
                    expected: None,
                    expected_count: 1,
                },
                context: Seq::empty(),
            },
        ),
        trees.len() != 1 ==> one_packed::<P>(trees) is Err && one_packed::<P>(trees)->Err_0
            == only_tree(trees)->Err_0,
{
}

} // verus!
