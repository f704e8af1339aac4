//! The packer protocol and its combinators: how a typed value is built from a
//! concrete tree, one level at a time, each level signing the failures that
//! pass through it.

use vstd::prelude::*;
use vstd::std_specs::iter::IteratorSpec;
use crate::errors::{
    found_views, rules_view, ErrorView, PackingError, PackingErrorVariant, PackingResult,
    RuleAndProvidence, VariantView,
};
use crate::rules::RuleType;
use crate::text::trimmed;
use crate::tree::{lemma_tree_view, trees_view, SyntaxTree, Tree};

verus! {

/// Types with a mathematical content, which the contracts of packing speak
/// of. A verified type says what its content is. A type that is written
/// without proofs names the type of its content, for which the unit type will
/// do, and leaves the function as it stands here.
pub trait Model {
    /// The type of the content.
    type V;

    /// The content of a value.
    open spec fn model(&self) -> Self::V {
        arbitrary()
    }
}

/// Types that are built from the nodes of one rule.
pub trait HasRule: Sized {
    type Rule: RuleType;

    /// The rule whose nodes this type is built from. A verified type says
    /// which it is.
    open spec fn rule() -> Self::Rule {
        arbitrary()
    }

    /// The rule whose nodes this type is built from.
    fn get_rule() -> (rule: Self::Rule)
        ensures
            rule == Self::rule(),
    ;
}

/// Types that can be packed from a concrete tree. Packing is a function of the
/// tree: [`TokenPacker::packed`] says what it gives, in terms of contents.
pub trait TokenPacker: HasRule + Model {
    /// What packing `tree` gives: the content of the value, or of the failure.
    /// A verified type says what it is, and its `pack` is held to it.
    open spec fn packed(tree: Tree<Self::Rule>) -> Result<Self::V, ErrorView<Self::Rule>> {
        arbitrary()
    }

    /// Whether the node carries the rule of this type.
    fn is_packable(tree: &SyntaxTree<Self::Rule>) -> (packable: bool)
        ensures
            packable == (tree@.rule == Self::rule()),
    {
        tree.rule.same(&Self::get_rule())
    }

    /// Builds the value from the tree, or says why it cannot be built.
    fn pack(tree: SyntaxTree<Self::Rule>) -> (r: Result<Self, PackingError<Self::Rule>>)
        ensures
            packed_view(r) == Self::packed(tree@),
    ;
}

/// Types that are packed in two stages: a simpler value is packed from the
/// tree, and then refined.
pub trait TokenRepacker: HasRule + Model {
    type Packer: TokenPacker;

    /// What refining gives, in terms of contents. A verified type says what
    /// it is, and its `repack` is held to it.
    open spec fn repacked(packer: <Self::Packer as Model>::V) -> Result<Self::V, ErrorView<Self::Rule>> {
        arbitrary()
    }

    /// Refines the packed value, or says why it cannot be refined.
    fn repack(packer: Self::Packer) -> (r: Result<Self, PackingError<Self::Rule>>)
        ensures
            packed_view(r) == Self::repacked(packer.model()),
    ;
}

/// A type that is packed in two stages is packed by packing the simpler value
/// and refining it. A failure of the first stage is handed on as it is.
impl<T, P> TokenPacker for T where T: TokenRepacker<Packer = P>, P: TokenPacker<Rule = T::Rule> {
    open spec fn packed(tree: Tree<Self::Rule>) -> Result<Self::V, ErrorView<Self::Rule>> {
        match P::packed(tree) {
            Ok(packer) => T::repacked(packer),
            Err(e) => Err(e),
        }
    }

    fn pack(tree: SyntaxTree<Self::Rule>) -> (r: Result<Self, PackingError<Self::Rule>>) {
        match P::pack(tree) {
            Ok(packer) => T::repack(packer),
            Err(e) => Err(e),
        }
    }
}

/// The content of the outcome of packing one value.
pub open spec fn packed_view<P: Model, R>(r: Result<P, PackingError<R>>) -> Result<
    P::V,
    ErrorView<R>,
> {
    match r {
        Ok(value) => Ok(value.model()),
        Err(e) => Err(e@),
    }
}

/// The view of an outcome that is a tree.
pub open spec fn tree_outcome<R>(r: Result<SyntaxTree<R>, PackingError<R>>) -> Result<
    Tree<R>,
    ErrorView<R>,
> {
    match r {
        Ok(tree) => Ok(tree@),
        Err(e) => Err(e@),
    }
}

/// The view of an outcome that is a text.
pub open spec fn text_outcome<R>(r: Result<String, PackingError<R>>) -> Result<
    Seq<char>,
    ErrorView<R>,
> {
    match r {
        Ok(text) => Ok(text@),
        Err(e) => Err(e@),
    }
}

/// The view of an optional tree.
pub open spec fn maybe_tree<R>(tree: Option<SyntaxTree<R>>) -> Option<Tree<R>> {
    match tree {
        Some(tree) => Some(tree@),
        None => None,
    }
}

/// The tree at place `i` of a sequence, if there is one.
pub open spec fn nth<R>(trees: Seq<Tree<R>>, i: int) -> Option<Tree<R>> {
    if 0 <= i < trees.len() {
        Some(trees[i])
    } else {
        None
    }
}

/// A node as errors list it: its rule and its matched text.
pub open spec fn found_of<R>(tree: Tree<R>) -> (R, Seq<char>) {
    (tree.rule, tree.providence.src)
}

/// The nodes of a sequence as errors list them.
pub open spec fn found_all<R>(trees: Seq<Tree<R>>) -> Seq<(R, Seq<char>)> {
    trees.map_values(|t: Tree<R>| found_of(t))
}

/// The one-element list of an optional rule.
pub open spec fn listed<R>(rule: Option<R>) -> Option<Seq<R>> {
    match rule {
        Some(rule) => Some(seq![rule]),
        None => None,
    }
}

/// The error for nodes found where exactly one was wanted. With nothing
/// found it is `NoChildrenFound`; with two, `TooMany` of the two; with one
/// (which then is the wrong one) `WrongSequence` of it.
pub open spec fn single_mismatch<R>(
    first: Option<Tree<R>>,
    second: Option<Tree<R>>,
    expected_rule: Option<R>,
) -> ErrorView<R> {
    ErrorView::fresh(
        match (first, second) {
            (Some(a), None) => VariantView::WrongSequence {
                found: seq![found_of(a)],
                expected: listed(expected_rule),
            },
            (Some(a), Some(b)) => VariantView::TooMany {
                present: seq![found_of(a), found_of(b)],
                expected: listed(expected_rule),
                expected_count: 1,
            },
            (None, _) => VariantView::NoChildrenFound { expected: listed(expected_rule) },
        },
    )
}

/// The error for nodes found where exactly two were wanted. With nothing
/// found it is `NoChildrenFound`; with one, `TooFew`; with three, `TooMany`
/// of the three; with two (which then are the wrong ones) `WrongSequence`.
pub open spec fn pair_mismatch<R>(
    first: Option<Tree<R>>,
    second: Option<Tree<R>>,
    third: Option<Tree<R>>,
    expected_rules: Option<Seq<R>>,
) -> ErrorView<R> {
    ErrorView::fresh(
        match (first, second, third) {
            (Some(a), Some(b), None) => VariantView::WrongSequence {
                found: seq![found_of(a), found_of(b)],
                expected: expected_rules,
            },
            (Some(a), Some(b), Some(c)) => VariantView::TooMany {
                present: seq![found_of(a), found_of(b), found_of(c)],
                expected: expected_rules,
                expected_count: 2,
            },
            (Some(a), None, _) => VariantView::TooFew {
                present: seq![found_of(a)],
                expected: expected_rules,
                expected_count: 2,
            },
            (None, _, _) => VariantView::NoChildrenFound { expected: expected_rules },
        },
    )
}

/// The error for a node that is none of the expected alternatives.
pub open spec fn wrong_alternative<R>(tree: Tree<R>, expected_rules: Seq<R>) -> ErrorView<R> {
    ErrorView::fresh(
        VariantView::WrongAlternative { found: found_of(tree), expected: expected_rules },
    )
}

/// The error for a node that carries another rule than the expected one.
pub open spec fn wrong_rule<R>(tree: Tree<R>, expected_rule: R) -> ErrorView<R> {
    single_mismatch(Some(tree), None, Some(expected_rule))
}

/// An outcome signed by `rule`: a failure gets the rule appended to its
/// trail, a success stays as it is.
pub open spec fn sign<T, R>(r: Result<T, ErrorView<R>>, rule: R) -> Result<T, ErrorView<R>> {
    match r {
        Ok(value) => Ok(value),
        Err(e) => Err(e.with_rule(rule)),
    }
}

/// The only tree of a sequence, or the error for another count than one.
pub open spec fn only_tree<R>(trees: Seq<Tree<R>>) -> Result<Tree<R>, ErrorView<R>> {
    if trees.len() == 1 {
        Ok(trees[0])
    } else {
        Err(single_mismatch(nth(trees, 0), nth(trees, 1), None))
    }
}

/// The trimmed text of a leaf of the expected rule. A node of another rule is
/// a `WrongSequence`; a node with children is `TooMany` of them, none having
/// been expected. The failure is signed by the expected rule.
pub open spec fn tree_src_string<R>(tree: Tree<R>, expected_rule: R) -> Result<
    Seq<char>,
    ErrorView<R>,
> {
    sign(
        if tree.rule != expected_rule {
            Err(wrong_rule(tree, expected_rule))
        } else if tree.children.len() > 0 {
            Err(
                ErrorView::fresh(
                    VariantView::TooMany {
                        present: found_all(tree.children),
                        expected: None,
                        expected_count: 0,
                    },
                ),
            )
        } else {
            Ok(trimmed(tree.providence.src))
        },
        expected_rule,
    )
}

/// The children of a node of the expected rule, however many there are. A
/// node of another rule is a `WrongSequence`, signed by the expected rule.
pub open spec fn tree_children<R>(tree: Tree<R>, expected_rule: R) -> Result<
    Seq<Tree<R>>,
    ErrorView<R>,
> {
    sign(
        if tree.rule != expected_rule {
            Err(wrong_rule(tree, expected_rule))
        } else {
            Ok(tree.children)
        },
        expected_rule,
    )
}

/// The only child of a node of the expected rule; the failure is signed by
/// the expected rule.
pub open spec fn only_tree_child<R>(tree: Tree<R>, expected_rule: R) -> Result<
    Tree<R>,
    ErrorView<R>,
> {
    sign(
        if tree.rule != expected_rule {
            Err(wrong_rule(tree, expected_rule))
        } else {
            only_tree(tree.children)
        },
        expected_rule,
    )
}

/// The view of the outcome of an operation that gives trees.
pub open spec fn trees_result_view<R>(r: Result<Vec<SyntaxTree<R>>, PackingError<R>>) -> Result<
    Seq<Tree<R>>,
    ErrorView<R>,
> {
    match r {
        Ok(trees) => Ok(trees_view(trees@)),
        Err(e) => Err(e@),
    }
}

/// A node as errors list it.
fn found_rule<R: RuleType>(tree: &SyntaxTree<R>) -> (found: RuleAndProvidence<R>)
    ensures
        found@ == found_of(tree@),
{
    RuleAndProvidence(tree.rule, tree.providence.as_string())
}

/// The nodes of `trees` as errors list them.
fn found_rules<R: RuleType>(trees: &Vec<SyntaxTree<R>>) -> (found: Vec<RuleAndProvidence<R>>)
    ensures
        found_views(found@) == found_all(trees_view(trees@)),
{
    let mut found: Vec<RuleAndProvidence<R>> = Vec::new();
    let mut i: usize = 0;
    while i < trees.len()
        invariant
            i <= trees.len(),
            found@.len() == i,
            forall|j: int| 0 <= j < i ==> (#[trigger] found@[j])@ == found_of(trees@[j]@),
        decreases trees.len() - i,
    {
        found.push(found_rule(&trees[i]));
        i += 1;
    }
    assert(found_views(found@) =~= found_all(trees_view(trees@)));
    found
}

/// The one-element list of an optional rule.
fn list_rule<R: RuleType>(rule: Option<R>) -> (rules: Option<Vec<R>>)
    ensures
        rules_view(rules) == listed(rule),
{
    match rule {
        Some(rule) => {
            let mut rules: Vec<R> = Vec::new();
            rules.push(rule);
            assert(rules@ =~= seq![rule]);
            Some(rules)
        },
        None => None,
    }
}

/// The error for the nodes found where exactly one was wanted.
pub fn into_packing_error<R: RuleType>(
    trees: (Option<SyntaxTree<R>>, Option<SyntaxTree<R>>),
    expected_rule: Option<R>,
) -> (e: PackingError<R>)
    ensures
        e@ == single_mismatch(maybe_tree(trees.0), maybe_tree(trees.1), expected_rule),
{
    let expected = list_rule(expected_rule);
    let variant = match trees {
        (Some(first), None) => {
            let mut found: Vec<RuleAndProvidence<R>> = Vec::new();
            found.push(found_rule(&first));
            assert(found_views(found@) =~= seq![found_of(first@)]);
            PackingErrorVariant::WrongSequence { found, expected }
        },
        (Some(first), Some(second)) => {
            let mut present: Vec<RuleAndProvidence<R>> = Vec::new();
            present.push(found_rule(&first));
            present.push(found_rule(&second));
            assert(found_views(present@) =~= seq![found_of(first@), found_of(second@)]);
            PackingErrorVariant::TooMany { present, expected, expected_count: 1 }
        },
        (None, _) => PackingErrorVariant::NoChildrenFound { expected },
    };
    PackingError::new(variant)
}

/// The error for the nodes found where exactly two were wanted.
pub fn into_packing_error_2<R: RuleType>(
    trees: (Option<SyntaxTree<R>>, Option<SyntaxTree<R>>, Option<SyntaxTree<R>>),
    expected_rules: Option<Vec<R>>,
) -> (e: PackingError<R>)
    ensures
        e@ == pair_mismatch(
            maybe_tree(trees.0),
            maybe_tree(trees.1),
            maybe_tree(trees.2),
            rules_view(expected_rules),
        ),
{
    let variant = match trees {
        (Some(first), Some(second), None) => {
            let mut found: Vec<RuleAndProvidence<R>> = Vec::new();
            found.push(found_rule(&first));
            found.push(found_rule(&second));
            assert(found_views(found@) =~= seq![found_of(first@), found_of(second@)]);
            PackingErrorVariant::WrongSequence { found, expected: expected_rules }
        },
        (Some(first), Some(second), Some(third)) => {
            let mut present: Vec<RuleAndProvidence<R>> = Vec::new();
            present.push(found_rule(&first));
            present.push(found_rule(&second));
            present.push(found_rule(&third));
            assert(found_views(present@) =~= seq![
                found_of(first@),
                found_of(second@),
                found_of(third@),
            ]);
            PackingErrorVariant::TooMany { present, expected: expected_rules, expected_count: 2 }
        },
        (Some(first), None, _) => {
            let mut present: Vec<RuleAndProvidence<R>> = Vec::new();
            present.push(found_rule(&first));
            assert(found_views(present@) =~= seq![found_of(first@)]);
            PackingErrorVariant::TooFew { present, expected: expected_rules, expected_count: 2 }
        },
        (None, _, _) => PackingErrorVariant::NoChildrenFound { expected: expected_rules },
    };
    PackingError::new(variant)
}

/// The error for a node that is none of the alternatives `expected_rules`.
pub fn make_wrong_rules_alt_error<R: RuleType>(tree: SyntaxTree<R>, expected_rules: Vec<R>) -> (e:
    PackingError<R>)
    ensures
        e@ == wrong_alternative(tree@, expected_rules@),
{
    let found = found_rule(&tree);
    PackingError::new(PackingErrorVariant::WrongAlternative { found, expected: expected_rules })
}

/// The first three trees of `trees`, as far as there are any.
fn first_three<R>(trees: Vec<SyntaxTree<R>>) -> (firsts: (
    Option<SyntaxTree<R>>,
    Option<SyntaxTree<R>>,
    Option<SyntaxTree<R>>,
))
    ensures
        maybe_tree(firsts.0) == nth(trees_view(trees@), 0),
        maybe_tree(firsts.1) == nth(trees_view(trees@), 1),
        maybe_tree(firsts.2) == nth(trees_view(trees@), 2),
        firsts.0 == (if trees@.len() > 0 { Some(trees@[0]) } else { None }),
        firsts.1 == (if trees@.len() > 1 { Some(trees@[1]) } else { None }),
        firsts.2 == (if trees@.len() > 2 { Some(trees@[2]) } else { None }),
{
    let mut trees = trees;
    trees.truncate(3);
    let third = if trees.len() == 3 {
        trees.pop()
    } else {
        None
    };
    let second = if trees.len() == 2 {
        trees.pop()
    } else {
        None
    };
    let first = trees.pop();
    (first, second, third)
}

/// The only tree of `trees`. Another count than one is an error: with no tree
/// `NoChildrenFound`, with two or more `TooMany` of the first two.
pub fn unpack_only_tree<R: RuleType>(trees: Vec<SyntaxTree<R>>) -> (r: Result<
    SyntaxTree<R>,
    PackingError<R>,
>)
    ensures
        tree_outcome(r) == only_tree(trees_view(trees@)),
        r matches Ok(tree) ==> tree == trees@[0],
{
    match first_three(trees) {
        (Some(tree), None, _) => Ok(tree),
        (first, second, _) => Err(into_packing_error((first, second), None)),
    }
}

/// The trimmed text of a leaf of the expected rule.
pub fn get_tree_src_string<R: RuleType>(tree: SyntaxTree<R>, expected_rule: R) -> (r: Result<
    String,
    PackingError<R>,
>)
    ensures
        text_outcome(r) == tree_src_string(tree@, expected_rule),
{
    proof {
        lemma_tree_view(tree);
    }
    let found = if !tree.rule.same(&expected_rule) {
        Err(into_packing_error((Some(tree), None), Some(expected_rule)))
    } else {
        let SyntaxTree { rule, providence, children } = tree;
        let children = match children {
            Some(children) => children.get_values(),
            None => Vec::new(),
        };
        if children.len() > 0 {
            let present = found_rules(&children);
            Err(
                PackingError::new(
                    PackingErrorVariant::TooMany { present, expected: None, expected_count: 0 },
                ),
            )
        } else {
            Ok(providence.as_trimmed_string())
        }
    };
    found.with_rule(expected_rule)
}

/// The children of a node of the expected rule, in source order.
pub fn get_tree_children<R: RuleType>(tree: SyntaxTree<R>, expected_rule: R) -> (r: Result<
    Vec<SyntaxTree<R>>,
    PackingError<R>,
>)
    ensures
        trees_result_view(r) == tree_children(tree@, expected_rule),
{
    proof {
        lemma_tree_view(tree);
    }
    let found = if !tree.rule.same(&expected_rule) {
        Err(into_packing_error((Some(tree), None), Some(expected_rule)))
    } else {
        match tree.children {
            Some(children) => Ok(children.get_values()),
            None => {
                let none: Vec<SyntaxTree<R>> = Vec::new();
                assert(trees_view(none@) =~= Seq::empty());
                Ok(none)
            },
        }
    };
    found.with_rule(expected_rule)
}

/// The only child of a node of the expected rule.
pub fn get_only_tree_child<R: RuleType>(tree: SyntaxTree<R>, expected_rule: R) -> (r: Result<
    SyntaxTree<R>,
    PackingError<R>,
>)
    ensures
        tree_outcome(r) == only_tree_child(tree@, expected_rule),
{
    proof {
        lemma_tree_view(tree);
    }
    let found = if !tree.rule.same(&expected_rule) {
        Err(into_packing_error((Some(tree), None), Some(expected_rule)))
    } else {
        match tree.children {
            Some(children) => unpack_only_tree(children.get_values()),
            None => {
                let none: Vec<SyntaxTree<R>> = Vec::new();
                assert(trees_view(none@) =~= Seq::empty());
                unpack_only_tree(none)
            },
        }
    };
    found.with_rule(expected_rule)
}

/// The views of a sequence of packed values.
pub open spec fn values_view<P: Model>(values: Seq<P>) -> Seq<P::V> {
    values.map_values(|p: P| p.model())
}

/// The view of the outcome of packing a list.
pub open spec fn each_view<P: Model, R>(r: Result<Vec<P>, PackingError<R>>) -> Result<
    Seq<P::V>,
    ErrorView<R>,
> {
    match r {
        Ok(values) => Ok(values_view(values@)),
        Err(e) => Err(e@),
    }
}

/// The view of the outcome of packing a pair.
pub open spec fn pair_view<Pa: Model, Pb: Model, R>(
    r: Result<(Pa, Pb), PackingError<R>>,
) -> Result<(Pa::V, Pb::V), ErrorView<R>> {
    match r {
        Ok(pair) => Ok((pair.0.model(), pair.1.model())),
        Err(e) => Err(e@),
    }
}

/// The view of the outcome of packing a value and, maybe, a second one.
pub open spec fn maybe_pair_view<Pa: Model, Pb: Model, R>(
    r: Result<(Pa, Option<Pb>), PackingError<R>>,
) -> Result<(Pa::V, Option<Pb::V>), ErrorView<R>> {
    match r {
        Ok(pair) => Ok(
            (
                pair.0.model(),
                match pair.1 {
                    Some(second) => Some(second.model()),
                    None => None,
                },
            ),
        ),
        Err(e) => Err(e@),
    }
}

/// Every tree packed as `P`, in order. The first failure is the outcome,
/// whatever stands behind the tree that failed.
pub open spec fn each_packed<P: TokenPacker>(trees: Seq<Tree<P::Rule>>) -> Result<
    Seq<P::V>,
    ErrorView<P::Rule>,
>
    decreases trees.len(),
{
    if trees.len() == 0 {
        Ok(Seq::empty())
    } else {
        match each_packed::<P>(trees.drop_last()) {
            Err(e) => Err(e),
            Ok(values) => match P::packed(trees.last()) {
                Err(e) => Err(e),
                Ok(value) => Ok(values.push(value)),
            },
        }
    }
}

/// The place of the first tree whose packing as `P` fails, if any fails.
pub open spec fn first_failure<P: TokenPacker>(trees: Seq<Tree<P::Rule>>) -> Option<int>
    decreases trees.len(),
{
    if trees.len() == 0 {
        None
    } else {
        match first_failure::<P>(trees.drop_last()) {
            Some(at) => Some(at),
            None => if P::packed(trees.last()) is Err {
                Some(trees.len() - 1)
            } else {
                None
            },
        }
    }
}

/// Packing a list, said by its first failure: where a tree fails, the
/// failure of the first such tree is the outcome, as it is and with nothing
/// added, whatever stands behind that tree; where none fails, the outcome is
/// the list of the values, one for each tree and in the order of the trees.
pub open spec fn fail_fast<P: TokenPacker>(trees: Seq<Tree<P::Rule>>) -> Result<
    Seq<P::V>,
    ErrorView<P::Rule>,
> {
    match first_failure::<P>(trees) {
        Some(at) => Err(P::packed(trees[at])->Err_0),
        None => Ok(Seq::new(trees.len(), |i: int| P::packed(trees[i])->Ok_0)),
    }
}

/// What [`first_failure`] finds: the least place at which packing fails.
pub proof fn lemma_first_failure<P: TokenPacker>(trees: Seq<Tree<P::Rule>>)
    ensures
        match first_failure::<P>(trees) {
            Some(at) => {
                &&& 0 <= at < trees.len()
                &&& P::packed(trees[at]) is Err
                &&& forall|j: int| 0 <= j < at ==> P::packed(#[trigger] trees[j]) is Ok
            },
            None => forall|j: int| 0 <= j < trees.len() ==> P::packed(#[trigger] trees[j]) is Ok,
        },
    decreases trees.len(),
{
    if trees.len() > 0 {
        let front = trees.drop_last();
        lemma_first_failure::<P>(front);
        assert(forall|j: int| 0 <= j < front.len() ==> front[j] == trees[j]);
    }
}

/// Packing a list fails fast: [`each_packed`] is [`fail_fast`].
pub proof fn lemma_each_packed_is_fail_fast<P: TokenPacker>(trees: Seq<Tree<P::Rule>>)
    ensures
        each_packed::<P>(trees) == fail_fast::<P>(trees),
    decreases trees.len(),
{
    if trees.len() == 0 {
        assert(Seq::new(trees.len(), |i: int| P::packed(trees[i])->Ok_0) =~= Seq::<
            P::V,
        >::empty());
    } else {
        let front = trees.drop_last();
        lemma_each_packed_is_fail_fast::<P>(front);
        lemma_first_failure::<P>(front);
        assert(forall|j: int| 0 <= j < front.len() ==> front[j] == trees[j]);
        match first_failure::<P>(front) {
            Some(at) => {},
            None => {
                if P::packed(trees.last()) is Ok {
                    let values = Seq::new(front.len(), |i: int| P::packed(front[i])->Ok_0);
                    assert(values.push(P::packed(trees.last())->Ok_0) =~= Seq::new(
                        trees.len(),
                        |i: int| P::packed(trees[i])->Ok_0,
                    ));
                }
            },
        }
    }
}

/// The only tree packed as `P`; another count than one is an error.
pub open spec fn one_packed<P: TokenPacker>(trees: Seq<Tree<P::Rule>>) -> Result<
    P::V,
    ErrorView<P::Rule>,
> {
    if trees.len() == 1 {
        P::packed(trees[0])
    } else {
        Err(single_mismatch(nth(trees, 0), nth(trees, 1), None))
    }
}

/// The first of two outcomes that failed, or both values.
pub open spec fn both<A, B, R>(
    first: Result<A, ErrorView<R>>,
    second: Result<B, ErrorView<R>>,
) -> Result<(A, B), ErrorView<R>> {
    match first {
        Err(e) => Err(e),
        Ok(a) => match second {
            Err(e) => Err(e),
            Ok(b) => Ok((a, b)),
        },
    }
}

/// Exactly two trees, the first packed as `Pa` and the second as `Pb`.
/// Another count is an error that names both expected rules.
pub open spec fn two_packed<Pa, Pb, R>(trees: Seq<Tree<R>>) -> Result<
    (Pa::V, Pb::V),
    ErrorView<R>,
> where R: RuleType, Pa: TokenPacker<Rule = R>, Pb: TokenPacker<Rule = R> {
    if trees.len() == 2 {
        both(Pa::packed(trees[0]), Pb::packed(trees[1]))
    } else {
        Err(
            pair_mismatch(
                nth(trees, 0),
                nth(trees, 1),
                nth(trees, 2),
                Some(seq![Pa::rule(), Pb::rule()]),
            ),
        )
    }
}

/// One tree packed as `Pa`, or two, the second packed as `Pb`. Another count
/// is an error.
pub open spec fn maybe_two_packed<Pa, Pb, R>(trees: Seq<Tree<R>>) -> Result<
    (Pa::V, Option<Pb::V>),
    ErrorView<R>,
> where R: RuleType, Pa: TokenPacker<Rule = R>, Pb: TokenPacker<Rule = R> {
    if trees.len() == 2 {
        match both(Pa::packed(trees[0]), Pb::packed(trees[1])) {
            Ok(pair) => Ok((pair.0, Some(pair.1))),
            Err(e) => Err(e),
        }
    } else if trees.len() == 1 {
        match Pa::packed(trees[0]) {
            Ok(first) => Ok((first, None)),
            Err(e) => Err(e),
        }
    } else {
        Err(pair_mismatch(nth(trees, 0), nth(trees, 1), nth(trees, 2), None))
    }
}

/// What `pack` gives beneath a node of the expected rule: the outcome of
/// `inner` on the children, signed by the expected rule; for a node of
/// another rule, the signed `WrongSequence`.
pub open spec fn beneath<T, R>(
    tree: Tree<R>,
    expected_rule: R,
    inner: Result<T, ErrorView<R>>,
) -> Result<T, ErrorView<R>> {
    sign(
        if tree.rule != expected_rule {
            Err(wrong_rule(tree, expected_rule))
        } else {
            inner
        },
        expected_rule,
    )
}

/// Once a tree of a list fails, the trees behind it do not matter.
pub proof fn lemma_each_packed_prefix<P: TokenPacker>(trees: Seq<Tree<P::Rule>>, n: int)
    requires
        0 <= n <= trees.len(),
        each_packed::<P>(trees.take(n)) is Err,
    ensures
        each_packed::<P>(trees) == each_packed::<P>(trees.take(n)),
    decreases trees.len() - n,
{
    if n == trees.len() {
        assert(trees.take(n) =~= trees);
    } else {
        assert(trees.take(n + 1).drop_last() =~= trees.take(n));
        lemma_each_packed_prefix::<P>(trees, n + 1);
    }
}

/// Packs every tree as `P`, in order, and stops at the first failure, which
/// is the outcome as it is: no value packed before it is handed out, and no
/// tree behind it matters.
pub fn pack_each_tree<P: TokenPacker>(trees: Vec<SyntaxTree<P::Rule>>) -> (r: Result<
    Vec<P>,
    PackingError<P::Rule>,
>)
    ensures
        each_view(r) == each_packed::<P>(trees_view(trees@)),
        each_view(r) == fail_fast::<P>(trees_view(trees@)),
{
    proof {
        lemma_each_packed_is_fail_fast::<P>(trees_view(trees@));
    }
    let ghost all = trees_view(trees@);
    let ghost sources = trees@;
    let mut packed: Vec<P> = Vec::new();
    assert(all.take(0) =~= Seq::empty());
    assert(values_view(packed@) =~= Seq::empty());
    for tree in iter: trees
        invariant
            iter.seq() == sources,
            all == trees_view(sources),
            each_packed::<P>(all.take(iter.index() as int)) == Ok::<
                Seq<P::V>,
                ErrorView<P::Rule>,
            >(values_view(packed@)),
    {
        let ghost at = iter.index() as int;
        let ghost before = packed@;
        assert(all.take(at + 1).drop_last() =~= all.take(at));
        assert(all.take(at + 1).last() == tree@);
        match P::pack(tree) {
            Ok(value) => {
                packed.push(value);
                assert(values_view(packed@) =~= values_view(before).push(value.model()));
            },
            Err(e) => {
                proof {
                    lemma_each_packed_prefix::<P>(all, at + 1);
                    lemma_each_packed_is_fail_fast::<P>(all);
                }
                return Err(e);
            },
        }
    }
    assert(all.take(all.len() as int) =~= all);
    Ok(packed)
}

/// Packs the only tree as `P`.
pub fn pack_1_tree<P: TokenPacker>(trees: Vec<SyntaxTree<P::Rule>>) -> (r: Result<
    P,
    PackingError<P::Rule>,
>)
    ensures
        packed_view(r) == one_packed::<P>(trees_view(trees@)),
{
    match first_three(trees) {
        (Some(child), None, _) => P::pack(child),
        (first, second, _) => Err(into_packing_error((first, second), None)),
    }
}

/// Packs exactly two trees, the first as `Pa` and the second as `Pb`.
pub fn pack_2_trees<Pa, Pb, R>(trees: Vec<SyntaxTree<R>>) -> (r: Result<(Pa, Pb), PackingError<R>>) where
    R: RuleType,
    Pa: TokenPacker<Rule = R>,
    Pb: TokenPacker<Rule = R>,

    ensures
        pair_view(r) == two_packed::<Pa, Pb, R>(trees_view(trees@)),
{
    match first_three(trees) {
        (Some(child_1), Some(child_2), None) => {
            match Pa::pack(child_1) {
                Err(e) => Err(e),
                Ok(packed_1) => match Pb::pack(child_2) {
                    Err(e) => Err(e),
                    Ok(packed_2) => Ok((packed_1, packed_2)),
                },
            }
        },
        firsts => {
            let mut expected: Vec<R> = Vec::new();
            expected.push(Pa::get_rule());
            expected.push(Pb::get_rule());
            assert(expected@ =~= seq![Pa::rule(), Pb::rule()]);
            Err(into_packing_error_2(firsts, Some(expected)))
        },
    }
}

/// Packs one tree as `Pa`, or two, the second as `Pb`.
pub fn pack_maybe_2_trees<Pa, Pb, R>(trees: Vec<SyntaxTree<R>>) -> (r: Result<
    (Pa, Option<Pb>),
    PackingError<R>,
>) where R: RuleType, Pa: TokenPacker<Rule = R>, Pb: TokenPacker<Rule = R>
    ensures
        maybe_pair_view(r) == maybe_two_packed::<Pa, Pb, R>(trees_view(trees@)),
{
    match first_three(trees) {
        (Some(child_1), Some(child_2), None) => {
            match Pa::pack(child_1) {
                Err(e) => Err(e),
                Ok(packed_1) => match Pb::pack(child_2) {
                    Err(e) => Err(e),
                    Ok(packed_2) => Ok((packed_1, Some(packed_2))),
                },
            }
        },
        (Some(child_1), None, None) => {
            match Pa::pack(child_1) {
                Err(e) => Err(e),
                Ok(packed_1) => Ok((packed_1, None)),
            }
        },
        firsts => Err(into_packing_error_2(firsts, None)),
    }
}

/// Packs every child of a node of the expected rule as `P`, however many
/// there are, and stops at the first failure. Failures are signed by the
/// expected rule.
pub fn unpack_tree_pack_each_child<P: TokenPacker>(
    tree: SyntaxTree<P::Rule>,
    expected_rule: P::Rule,
) -> (r: Result<Vec<P>, PackingError<P::Rule>>)
    ensures
        each_view(r) == beneath(tree@, expected_rule, each_packed::<P>(tree@.children)),
        each_view(r) == beneath(tree@, expected_rule, fail_fast::<P>(tree@.children)),
{
    proof {
        lemma_each_packed_is_fail_fast::<P>(tree@.children);
    }
    match get_tree_children(tree, expected_rule) {
        Err(e) => Err(e),
        Ok(children) => pack_each_tree::<P>(children).with_rule(expected_rule),
    }
}

/// Packs the only child of a node of the expected rule as `P`. Failures are
/// signed by the expected rule.
pub fn unpack_tree_pack_1_child<P: TokenPacker>(
    tree: SyntaxTree<P::Rule>,
    expected_rule: P::Rule,
) -> (r: Result<P, PackingError<P::Rule>>)
    ensures
        packed_view(r) == beneath(tree@, expected_rule, one_packed::<P>(tree@.children)),
{
    match get_tree_children(tree, expected_rule) {
        Err(e) => Err(e),
        Ok(children) => pack_1_tree::<P>(children).with_rule(expected_rule),
    }
}

/// Packs the two children of a node of the expected rule, the first as `Pa`
/// and the second as `Pb`. Failures are signed by the expected rule.
pub fn unpack_tree_pack_2_children<Pa, Pb, R>(tree: SyntaxTree<R>, expected_rule: R) -> (r: Result<
    (Pa, Pb),
    PackingError<R>,
>) where R: RuleType, Pa: TokenPacker<Rule = R>, Pb: TokenPacker<Rule = R>
    ensures
        pair_view(r) == beneath(
            tree@,
            expected_rule,
            two_packed::<Pa, Pb, R>(tree@.children),
        ),
{
    match get_tree_children(tree, expected_rule) {
        Err(e) => Err(e),
        Ok(children) => pack_2_trees::<Pa, Pb, R>(children).with_rule(expected_rule),
    }
}

/// Packs the one or two children of a node of the expected rule, the first
/// as `Pa` and the second, if there is one, as `Pb`. Failures are signed by
/// the expected rule.
pub fn unpack_tree_pack_maybe_2_children<Pa, Pb, R>(
    tree: SyntaxTree<R>,
    expected_rule: R,
) -> (r: Result<(Pa, Option<Pb>), PackingError<R>>) where
    R: RuleType,
    Pa: TokenPacker<Rule = R>,
    Pb: TokenPacker<Rule = R>,

    ensures
        maybe_pair_view(r) == beneath(
            tree@,
            expected_rule,
            maybe_two_packed::<Pa, Pb, R>(tree@.children),
        ),
{
    match get_tree_children(tree, expected_rule) {
        Err(e) => Err(e),
        Ok(children) => pack_maybe_2_trees::<Pa, Pb, R>(children).with_rule(expected_rule),
    }
}

/// The first place at which `rule` stands in `rules`, if it stands there.
pub open spec fn position<R>(rules: Seq<R>, rule: R) -> Option<int>
    decreases rules.len(),
{
    if rules.len() == 0 {
        None
    } else {
        match position(rules.drop_last(), rule) {
            Some(at) => Some(at),
            None => if rules.last() == rule {
                Some(rules.len() - 1)
            } else {
                None
            },
        }
    }
}

/// The alternative that a node selects: the first candidate that is the
/// node's rule. A node that is none of the candidates is a `WrongAlternative`
/// that names all of them.
pub open spec fn alternative<R>(tree: Tree<R>, candidates: Seq<R>) -> Result<int, ErrorView<R>> {
    match position(candidates, tree.rule) {
        Some(at) => Ok(at),
        None => Err(wrong_alternative(tree, candidates)),
    }
}

/// What packing a choice gives: the only child of a node of the expected
/// rule selects one of the candidates, and `chosen` says what packing the
/// child as the selected candidate gives. The failures of the selection and
/// of the candidate are signed by the expected rule.
pub open spec fn choice<T, R>(
    tree: Tree<R>,
    expected_rule: R,
    candidates: Seq<R>,
    chosen: spec_fn(int, Tree<R>) -> Result<T, ErrorView<R>>,
) -> Result<T, ErrorView<R>> {
    match only_tree_child(tree, expected_rule) {
        Err(e) => Err(e),
        Ok(child) => sign(
            match alternative(child, candidates) {
                Err(e) => Err(e),
                Ok(at) => chosen(at, child),
            },
            expected_rule,
        ),
    }
}

/// What [`position`] finds: the least place that holds the rule.
pub proof fn lemma_position<R>(rules: Seq<R>, rule: R)
    ensures
        match position(rules, rule) {
            Some(at) => {
                &&& 0 <= at < rules.len()
                &&& rules[at] == rule
                &&& forall|j: int| 0 <= j < at ==> rules[j] != rule
            },
            None => forall|j: int| 0 <= j < rules.len() ==> rules[j] != rule,
        },
    decreases rules.len(),
{
    if rules.len() > 0 {
        let front = rules.drop_last();
        lemma_position(front, rule);
        assert(forall|j: int| 0 <= j < front.len() ==> front[j] == rules[j]);
    }
}

/// Selects the alternative for a node among the candidate rules, which are
/// tried in order: gives the place of the first candidate that is the node's
/// rule, and the node back; or, where no candidate is, the `WrongAlternative`
/// that names them all.
pub fn select_alternative<R: RuleType>(tree: SyntaxTree<R>, candidates: Vec<R>) -> (r: Result<
    (usize, SyntaxTree<R>),
    PackingError<R>,
>)
    ensures
        match r {
            Ok((at, same)) => alternative(tree@, candidates@) == Ok::<int, ErrorView<R>>(at as int)
                && same == tree,
            Err(e) => alternative(tree@, candidates@) == Err::<int, ErrorView<R>>(e@),
        },
{
    proof {
        lemma_tree_view(tree);
    }
    let mut at: usize = 0;
    while at < candidates.len()
        invariant
            at <= candidates.len(),
            position(candidates@.take(at as int), tree.rule) is None,
        decreases candidates.len() - at,
    {
        assert(candidates@.take(at + 1).drop_last() =~= candidates@.take(at as int));
        if candidates[at].same(&tree.rule) {
            proof {
                lemma_position_prefix(candidates@, tree.rule, at + 1);
            }
            return Ok((at, tree));
        }
        at += 1;
    }
    assert(candidates@.take(at as int) =~= candidates@);
    Err(make_wrong_rules_alt_error(tree, candidates))
}

/// A rule found in a prefix is found at the same place in the whole.
proof fn lemma_position_prefix<R>(rules: Seq<R>, rule: R, n: int)
    requires
        0 <= n <= rules.len(),
        position(rules.take(n), rule) is Some,
    ensures
        position(rules, rule) == position(rules.take(n), rule),
    decreases rules.len() - n,
{
    if n == rules.len() {
        assert(rules.take(n) =~= rules);
    } else {
        assert(rules.take(n + 1).drop_last() =~= rules.take(n));
        lemma_position_prefix(rules, rule, n + 1);
    }
}

/// The error for a child that was needed where none is left.
pub open spec fn exhausted<R>(expected_rule: R) -> ErrorView<R> {
    ErrorView::fresh(VariantView::NoChildrenFound { expected: Some(seq![expected_rule]) })
}

/// The error for a child that is left where none was expected.
pub open spec fn left_over<R>(tree: Tree<R>) -> ErrorView<R> {
    ErrorView::fresh(
        VariantView::TooMany { present: seq![found_of(tree)], expected: None, expected_count: 0 },
    )
}

/// Pulls the next tree and packs it as `P`. Where no tree is left, the
/// outcome is `NoChildrenFound`, naming the rule of `P`. The contract speaks
/// of iterators that keep the laws of iterators, as those of vectors do.
pub fn pack_next_tree<I, P>(trees: &mut I) -> (r: Result<P, PackingError<P::Rule>>) where
    I: Iterator<Item = SyntaxTree<P::Rule>>,
    P: TokenPacker,

    ensures
        (*old(trees)).obeys_prophetic_iter_laws() ==> {
            &&& (*final(trees)).obeys_prophetic_iter_laws()
            &&& (*old(trees)).remaining().len() > 0 ==> {
                &&& (*final(trees)).remaining() == (*old(trees)).remaining().drop_first()
                &&& packed_view(r) == P::packed((*old(trees)).remaining()[0]@)
            }
            &&& (*old(trees)).remaining().len() == 0 ==> {
                &&& (*final(trees)).remaining() == (*old(trees)).remaining()
                &&& packed_view(r) == Err::<P::V, ErrorView<P::Rule>>(exhausted(P::rule()))
            }
        },
{
    match trees.next() {
        Some(child) => P::pack(child),
        None => {
            let mut expected: Vec<P::Rule> = Vec::new();
            expected.push(P::get_rule());
            assert(expected@ =~= seq![P::rule()]);
            Err(
                PackingError::new(
                    PackingErrorVariant::NoChildrenFound { expected: Some(expected) },
                ),
            )
        },
    }
}

/// Checks that no tree is left. A tree that is left is `TooMany` of it, none
/// having been expected. The contract speaks of iterators that keep the laws
/// of iterators, as those of vectors do.
pub fn ensure_no_more_trees<I, R>(trees: I) -> (r: Result<(), PackingError<R>>) where
    I: Iterator<Item = SyntaxTree<R>>,
    R: RuleType,

    ensures
        trees.obeys_prophetic_iter_laws() ==> {
            &&& trees.remaining().len() == 0 ==> r is Ok
            &&& trees.remaining().len() > 0 ==> r is Err && r->Err_0@ == left_over(
                trees.remaining()[0]@,
            )
        },
{
    let mut trees = trees;
    match trees.next() {
        None => Ok(()),
        Some(extra) => {
            let mut present: Vec<RuleAndProvidence<R>> = Vec::new();
            present.push(found_rule(&extra));
            assert(found_views(present@) =~= seq![found_of(extra@)]);
            Err(
                PackingError::new(
                    PackingErrorVariant::TooMany { present, expected: None, expected_count: 0 },
                ),
            )
        },
    }
}

/// An outcome whose value is wrapped; a failure stays as it is.
pub open spec fn mapped<A, B, R>(r: Result<A, ErrorView<R>>, wrap: spec_fn(A) -> B) -> Result<
    B,
    ErrorView<R>,
> {
    match r {
        Ok(value) => Ok(wrap(value)),
        Err(e) => Err(e),
    }
}

/// The view of the outcome of packing a value and a list.
pub open spec fn first_and_rest_view<Pa: Model, Pb: Model, R>(
    r: Result<(Pa, Vec<Pb>), PackingError<R>>,
) -> Result<(Pa::V, Seq<Pb::V>), ErrorView<R>> {
    match r {
        Ok(pair) => Ok((pair.0.model(), values_view(pair.1@))),
        Err(e) => Err(e@),
    }
}

/// The first tree packed as `Pa`, and every tree behind it packed as `Pb`.
/// Where there is no first tree, the outcome is `NoChildrenFound`, naming the
/// rule of `Pa`.
pub open spec fn first_and_rest_packed<Pa, Pb, R>(trees: Seq<Tree<R>>) -> Result<
    (Pa::V, Seq<Pb::V>),
    ErrorView<R>,
> where R: RuleType, Pa: TokenPacker<Rule = R>, Pb: TokenPacker<Rule = R> {
    if trees.len() == 0 {
        Err(exhausted(Pa::rule()))
    } else {
        both(Pa::packed(trees[0]), each_packed::<Pb>(trees.skip(1)))
    }
}

/// Packs the first child of a node of the expected rule as `Pa` and every
/// child behind it as `Pb`, and stops at the first failure. Failures are
/// signed by the expected rule.
pub fn unpack_tree_pack_first_and_rest<Pa, Pb, R>(tree: SyntaxTree<R>, expected_rule: R) -> (r:
    Result<(Pa, Vec<Pb>), PackingError<R>>) where
    R: RuleType,
    Pa: TokenPacker<Rule = R>,
    Pb: TokenPacker<Rule = R>,

    ensures
        first_and_rest_view(r) == beneath(
            tree@,
            expected_rule,
            first_and_rest_packed::<Pa, Pb, R>(tree@.children),
        ),
{
    match get_tree_children(tree, expected_rule) {
        Err(e) => Err(e),
        Ok(children) => {
            let mut children = children;
            let ghost all = trees_view(children@);
            let packed = if children.len() == 0 {
                let mut expected: Vec<R> = Vec::new();
                expected.push(Pa::get_rule());
                assert(expected@ =~= seq![Pa::rule()]);
                Err(
                    PackingError::new(
                        PackingErrorVariant::NoChildrenFound { expected: Some(expected) },
                    ),
                )
            } else {
                let first = children.remove(0);
                assert(trees_view(children@) =~= all.skip(1));
                match Pa::pack(first) {
                    Err(e) => Err(e),
                    Ok(head) => match pack_each_tree::<Pb>(children) {
                        Err(e) => Err(e),
                        Ok(rest) => Ok((head, rest)),
                    },
                }
            };
            packed.with_rule(expected_rule)
        },
    }
}

/// The error for a count of trees that is not the `count` wanted: `TooFew`
/// of all of them where they are fewer, `TooMany` of all of them else.
pub open spec fn wrong_count<R>(trees: Seq<Tree<R>>, count: nat) -> ErrorView<R> {
    ErrorView::fresh(
        if trees.len() < count {
            VariantView::TooFew {
                present: found_all(trees),
                expected: None,
                expected_count: count,
            }
        } else {
            VariantView::TooMany {
                present: found_all(trees),
                expected: None,
                expected_count: count,
            }
        },
    )
}

/// Calls `Vec::try_into` for an array, which gives the whole contents as an
/// array where the length is the one of the array, and the vector back else.
#[verifier::external_body]
fn into_array<T, const N: usize>(items: Vec<T>) -> (r: Result<[T; N], Vec<T>>)
    ensures
        match r {
            Ok(array) => items@.len() == N && array@ == items@,
            Err(back) => items@.len() != N && back@ == items@,
        },
{
    items.try_into()
}

/// Exactly `N` trees as an array. Another count is `TooFew` or `TooMany` of
/// the trees, with `N` as the expected count.
pub fn get_x_trees<const N: usize, R: RuleType>(trees: Vec<SyntaxTree<R>>) -> (r: Result<
    [SyntaxTree<R>; N],
    PackingError<R>,
>)
    ensures
        match r {
            Ok(array) => trees@.len() == N && array@ == trees@,
            Err(e) => trees@.len() != N && e@ == wrong_count(trees_view(trees@), N as nat),
        },
{
    match into_array::<SyntaxTree<R>, N>(trees) {
        Ok(array) => Ok(array),
        Err(back) => {
            let present = found_rules(&back);
            if back.len() < N {
                Err(
                    PackingError::new(
                        PackingErrorVariant::TooFew { present, expected: None, expected_count: N },
                    ),
                )
            } else {
                Err(
                    PackingError::new(
                        PackingErrorVariant::TooMany { present, expected: None, expected_count: N },
                    ),
                )
            }
        },
    }
}

} // verus!
