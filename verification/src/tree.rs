//! Concrete syntax trees: the uniform shape that the packers consume, built
//! from the nodes that a grammar's parser hands over.

use vstd::prelude::*;
use vstd::string::*;
use crate::errors::rule_names;
use crate::providence::{Providence, ProvidenceView};
use crate::rules::{DropRules, RuleType};
use crate::text::{join_texts, joined, texts_of};

verus! {

/// A node as the grammar's parser hands it over: its rule, what it matched,
/// and all its children in source order, trivia included.
#[derive(Debug)]
pub struct RawNode<R> {
    pub rule: R,
    pub providence: Providence,
    pub children: Vec<RawNode<R>>,
}

/// A node of a concrete tree. `children` is `None` for a leaf.
#[derive(Debug)]
pub struct SyntaxTree<R> {
    pub rule: R,
    pub providence: Providence,
    pub children: Option<SyntaxChildren<R>>,
}

/// The children of a node that has any: exactly one, or two and more.
#[derive(Debug)]
pub enum SyntaxChildren<R> {
    One(Box<SyntaxTree<R>>),
    Many(Vec<SyntaxTree<R>>),
}

/// A tree as a mathematical value: a rule, what it matched, and the children
/// in source order. It is the view of raw nodes and of concrete trees alike.
pub struct Tree<R> {
    pub rule: R,
    pub providence: ProvidenceView,
    pub children: Seq<Tree<R>>,
}

impl<R> RawNode<R> {
    /// The tree that the node stands for.
    pub open spec fn model(self) -> Tree<R>
        decreases self,
    {
        Tree {
            rule: self.rule,
            providence: self.providence@,
            children: Seq::new(
                self.children@.len(),
                |i: int|
                    if 0 <= i < self.children@.len() {
                        self.children@[i].model()
                    } else {
                        arbitrary()
                    },
            ),
        }
    }
}

impl<R> View for RawNode<R> {
    type V = Tree<R>;

    open spec fn view(&self) -> Tree<R> {
        self.model()
    }
}

impl<R> SyntaxTree<R> {
    /// The tree that the node stands for.
    pub open spec fn model(self) -> Tree<R>
        decreases self,
    {
        Tree {
            rule: self.rule,
            providence: self.providence@,
            children: match self.children {
                None => Seq::empty(),
                Some(SyntaxChildren::One(child)) => seq![(*child).model()],
                Some(SyntaxChildren::Many(children)) => Seq::new(
                    children@.len(),
                    |i: int|
                        if 0 <= i < children@.len() {
                            children@[i].model()
                        } else {
                            arbitrary()
                        },
                ),
            },
        }
    }
}

impl<R> View for SyntaxTree<R> {
    type V = Tree<R>;

    open spec fn view(&self) -> Tree<R> {
        self.model()
    }
}

/// The views of a sequence of concrete trees.
pub open spec fn trees_view<R>(trees: Seq<SyntaxTree<R>>) -> Seq<Tree<R>> {
    trees.map_values(|t: SyntaxTree<R>| t@)
}

impl<R: DropRules> Tree<R> {
    /// Whether a child tagged `rule` stays beneath this node.
    pub open spec fn keeps(self, rule: R) -> bool {
        !self.rule.drop_rules().contains(rule)
    }

    /// The concrete tree of a raw node: the node's own rule and matched text,
    /// and beneath it the concrete trees of its children, in source order,
    /// without those whose rule is trivia beneath this node's rule.
    pub open spec fn concrete(self) -> Tree<R>
        decreases self, 1nat,
    {
        Tree {
            rule: self.rule,
            providence: self.providence,
            children: self.concrete_children().filter(self.keeps_child()),
        }
    }

    /// The concrete trees of all the children, trivia included.
    pub open spec fn concrete_children(self) -> Seq<Tree<R>>
        decreases self, 0nat,
    {
        Seq::new(
            self.children.len(),
            |i: int|
                if 0 <= i < self.children.len() {
                    self.children[i].concrete()
                } else {
                    arbitrary()
                },
        )
    }

    /// [`Self::keeps`] as a predicate on the children.
    pub open spec fn keeps_child(self) -> spec_fn(Tree<R>) -> bool {
        |child: Tree<R>| self.keeps(child.rule)
    }

    /// Whether no node of the tree, at any depth, has a child whose rule is
    /// trivia beneath that node's rule.
    pub open spec fn elided(self) -> bool
        decreases self,
    {
        forall|i: int|
            0 <= i < self.children.len() ==> {
                &&& self.keeps((#[trigger] self.children[i]).rule)
                &&& self.children[i].elided()
            }
    }
}

impl<R> SyntaxTree<R> {
    /// Whether the shape of every node tells the number of its children:
    /// a leaf has `None`, a single child stands in `One`, and `Many` holds at
    /// least two.
    pub open spec fn well_formed(self) -> bool
        decreases self,
    {
        match self.children {
            None => true,
            Some(SyntaxChildren::One(child)) => child.well_formed(),
            Some(SyntaxChildren::Many(children)) => {
                &&& children@.len() >= 2
                &&& forall|i: int|
                    0 <= i < children@.len() ==> (#[trigger] children@[i]).well_formed()
            },
        }
    }

    /// The matched text of the node.
    pub fn as_string(&self) -> (s: String)
        ensures
            s@ == self@.providence.src,
    {
        self.providence.as_string()
    }
}

impl<R> SyntaxChildren<R> {
    /// The children in source order.
    pub open spec fn values(self) -> Seq<SyntaxTree<R>> {
        match self {
            SyntaxChildren::One(child) => seq![*child],
            SyntaxChildren::Many(children) => children@,
        }
    }

    /// The children in source order.
    pub fn get_values(self) -> (values: Vec<SyntaxTree<R>>)
        ensures
            values@ == self.values(),
    {
        match self {
            SyntaxChildren::One(child) => {
                let mut values: Vec<SyntaxTree<R>> = Vec::new();
                values.push(*child);
                assert(values@ =~= seq![*child]);
                values
            },
            SyntaxChildren::Many(children) => children,
        }
    }
}

/// What the view of a raw node holds.
pub proof fn lemma_raw_view<R>(raw: RawNode<R>)
    ensures
        raw@.rule == raw.rule,
        raw@.providence == raw.providence@,
        raw@.children.len() == raw.children@.len(),
        forall|i: int| 0 <= i < raw.children@.len() ==> raw@.children[i] == (#[trigger] raw.children@[i])@,
{
}

/// What the view of a concrete tree holds.
pub proof fn lemma_tree_view<R>(tree: SyntaxTree<R>)
    ensures
        tree@.rule == tree.rule,
        tree@.providence == tree.providence@,
        tree@.children == match tree.children {
            None => Seq::empty(),
            Some(children) => trees_view(children.values()),
        },
{
    match tree.children {
        None => {},
        Some(SyntaxChildren::One(child)) => {
            assert(tree@.children =~= trees_view(seq![*child]));
        },
        Some(SyntaxChildren::Many(children)) => {
            assert(tree@.children =~= trees_view(children@));
        },
    }
}

/// Filtering a sequence with one more element at its end.
proof fn lemma_filter_push<A>(s: Seq<A>, x: A, pred: spec_fn(A) -> bool)
    ensures
        s.push(x).filter(pred) == if pred(x) {
            s.filter(pred).push(x)
        } else {
            s.filter(pred)
        },
{
    reveal(Seq::filter);
    assert(s.push(x).drop_last() =~= s);
}

/// Every element that a filter keeps stands somewhere in the filtered
/// sequence and meets the predicate.
proof fn lemma_filter_source<A>(s: Seq<A>, pred: spec_fn(A) -> bool)
    ensures
        forall|i: int|
            0 <= i < s.filter(pred).len() ==> pred(#[trigger] s.filter(pred)[i]) && s.contains(
                s.filter(pred)[i],
            ),
    decreases s.len(),
{
    reveal(Seq::filter);
    if s.len() > 0 {
        let front = s.drop_last();
        lemma_filter_source(front, pred);
        assert forall|i: int| 0 <= i < s.filter(pred).len() implies pred(
            #[trigger] s.filter(pred)[i],
        ) && s.contains(s.filter(pred)[i]) by {
            if i < front.filter(pred).len() {
                let x = front.filter(pred)[i];
                assert(front.contains(x));
                let j = choose|j: int| 0 <= j < front.len() && front[j] == x;
                assert(s[j] == x);
            } else {
                assert(s.filter(pred)[i] == s.last());
                assert(s[s.len() - 1] == s.last());
            }
        }
    }
}

/// Trivia is elided at every depth: in the concrete tree of any raw node, no
/// node has a child whose rule is trivia beneath that node's rule.
pub proof fn lemma_concrete_elides_trivia<R: DropRules>(raw: Tree<R>)
    ensures
        raw.concrete().elided(),
    decreases raw,
{
    let built = raw.concrete_children();
    let kept = raw.concrete().children;
    lemma_filter_source(built, raw.keeps_child());
    assert forall|i: int| 0 <= i < kept.len() implies {
        &&& raw.concrete().keeps((#[trigger] kept[i]).rule)
        &&& kept[i].elided()
    } by {
        let j = choose|j: int| 0 <= j < built.len() && built[j] == kept[i];
        lemma_concrete_elides_trivia(raw.children[j]);
    }
}

/// The concrete tree keeps, in source order, exactly the children whose rule
/// is not trivia: the rules of its children are the kept ones among the rules
/// of the raw children.
pub proof fn lemma_concrete_child_rules<R: DropRules>(raw: Tree<R>)
    ensures
        raw.concrete().rule == raw.rule,
        raw.concrete().providence == raw.providence,
        raw.concrete().children.map_values(|c: Tree<R>| c.rule) == raw.children.map_values(
            |c: Tree<R>| c.rule,
        ).filter(|rule: R| raw.keeps(rule)),
{
    let built = raw.concrete_children();
    let rule_of = |c: Tree<R>| c.rule;
    let keep_rule = |rule: R| raw.keeps(rule);
    assert(built.map_values(rule_of) =~= raw.children.map_values(rule_of));
    lemma_filter_map_rules(built, raw);
}

/// Taking the rules commutes with keeping the children that are no trivia.
proof fn lemma_filter_map_rules<R: DropRules>(nodes: Seq<Tree<R>>, parent: Tree<R>)
    ensures
        nodes.filter(parent.keeps_child()).map_values(|c: Tree<R>| c.rule) == nodes.map_values(
            |c: Tree<R>| c.rule,
        ).filter(|rule: R| parent.keeps(rule)),
    decreases nodes.len(),
{
    reveal(Seq::filter);
    let rule_of = |c: Tree<R>| c.rule;
    let keep_rule = |rule: R| parent.keeps(rule);
    if nodes.len() > 0 {
        let front = nodes.drop_last();
        lemma_filter_map_rules(front, parent);
        assert(nodes.map_values(rule_of).drop_last() =~= front.map_values(rule_of));
        assert(nodes.filter(parent.keeps_child()).map_values(rule_of) =~= nodes.map_values(
            rule_of,
        ).filter(keep_rule));
    } else {
        assert(nodes.filter(parent.keeps_child()).map_values(rule_of) =~= nodes.map_values(
            rule_of,
        ).filter(keep_rule));
    }
}

/// The shape of a well-formed node tells the number of its children: none
/// for `None`, one for `One`, two or more for `Many`, and the other way round.
pub proof fn lemma_arity_classification<R>(tree: SyntaxTree<R>)
    requires
        tree.well_formed(),
    ensures
        tree@.children.len() == 0 <==> tree.children is None,
        tree@.children.len() == 1 <==> (tree.children matches Some(SyntaxChildren::One(_))),
        tree@.children.len() >= 2 <==> (tree.children matches Some(SyntaxChildren::Many(_))),
        tree.children matches Some(SyntaxChildren::Many(children)) ==> children@.len() >= 2,
{
    lemma_tree_view(tree);
}

/// The shape of a built tree tells how many children survive, that is, how
/// many of the raw children carry a rule that is no trivia beneath the rule
/// of the node: none for `None`, one for `One`, two or more for `Many`.
pub proof fn lemma_built_arity<R: DropRules>(raw: Tree<R>, tree: SyntaxTree<R>)
    requires
        tree@ == raw.concrete(),
        tree.well_formed(),
    ensures
        ({
            let surviving = raw.children.map_values(|c: Tree<R>| c.rule).filter(
                |rule: R| raw.keeps(rule),
            ).len();
            &&& surviving == 0 <==> tree.children is None
            &&& surviving == 1 <==> (tree.children matches Some(SyntaxChildren::One(_)))
            &&& surviving >= 2 <==> (tree.children matches Some(SyntaxChildren::Many(_)))
        }),
{
    lemma_concrete_child_rules(raw);
    lemma_arity_classification(tree);
    assert(raw.concrete().children.map_values(|c: Tree<R>| c.rule).len()
        == raw.concrete().children.len());
}

impl<R: DropRules> SyntaxTree<R> {
    /// Builds the concrete tree of a raw node: the node keeps its rule and its
    /// matched text; its children are built in source order, without those
    /// whose rule is trivia beneath the node's rule; and the shape says how
    /// many are left.
    pub fn from(raw: RawNode<R>) -> (tree: SyntaxTree<R>)
        ensures
            tree@ == raw@.concrete(),
            tree.well_formed(),
        decreases raw,
    {
        let ghost model = raw@;
        let ghost keep = model.keeps_child();
        let ghost built = model.concrete_children();
        let RawNode { rule, providence, children } = raw;
        let skip_rules = rule.get_drop_rules();
        let ghost all = children@;
        let mut kept: Vec<SyntaxTree<R>> = Vec::new();
        proof {
            reveal(Seq::filter);
            lemma_raw_view(raw);
            assert(trees_view(kept@) =~= built.take(0).filter(keep));
        }
        for child in iter: children
            invariant
                iter.seq() == all,
                model.rule == rule,
                model.children.len() == all.len(),
                forall|i: int| 0 <= i < all.len() ==> model.children[i] == (#[trigger] all[i])@,
                forall|i: int| 0 <= i < all.len() ==> decreases_to!(raw => #[trigger] all[i]),
                built == model.concrete_children(),
                keep == model.keeps_child(),
                skip_rules@ == rule.drop_rules(),
                trees_view(kept@) == built.take(iter.index() as int).filter(keep),
                forall|k: int| 0 <= k < kept@.len() ==> (#[trigger] kept@[k]).well_formed(),
        {
            let ghost at = iter.index() as int;
            assert(child == all[at]);
            let ghost before = kept@;
            proof {
                assert(built.take(at + 1) =~= built.take(at).push(built[at]));
                lemma_filter_push(built.take(at), built[at], keep);
                assert(built[at].rule == child.rule);
            }
            if !contains_rule(&skip_rules, &child.rule) {
                let sub = SyntaxTree::from(child);
                kept.push(sub);
                assert(trees_view(kept@) =~= trees_view(before).push(sub@));
            }
        }
        assert(built.take(all.len() as int) =~= built);
        let count = kept.len();
        let children = if count == 0 {
            assert(trees_view(kept@) =~= Seq::empty());
            None
        } else if count == 1 {
            let ghost only = kept@[0];
            let child = kept.pop().unwrap();
            assert(trees_view(seq![only]) =~= seq![child@]);
            Some(SyntaxChildren::One(Box::new(child)))
        } else {
            Some(SyntaxChildren::Many(kept))
        };
        let tree = SyntaxTree { rule, providence, children };
        proof {
            lemma_tree_view(tree);
        }
        assert(tree@.children =~= model.concrete().children);
        tree
    }
}

/// Whether `rule` is one of `rules`.
fn contains_rule<R: RuleType>(rules: &Vec<R>, rule: &R) -> (found: bool)
    ensures
        found == rules@.contains(*rule),
{
    let mut i: usize = 0;
    while i < rules.len()
        invariant
            i <= rules.len(),
            forall|j: int| 0 <= j < i ==> rules@[j] != *rule,
        decreases rules.len() - i,
    {
        if rules[i].same(rule) {
            return true;
        }
        i += 1;
    }
    false
}

/// The rules of a sequence of concrete trees.
pub open spec fn rules_of<R>(trees: Seq<SyntaxTree<R>>) -> Seq<R> {
    trees.map_values(|tree: SyntaxTree<R>| tree.rule)
}

impl<R: RuleType> SyntaxChildren<R> {
    /// How the children are shown to a developer: an only child in full, two
    /// children and more by their rules; in square brackets either way.
    pub open spec fn debug_text(self) -> Seq<char>
        decreases self,
    {
        match self {
            SyntaxChildren::One(child) => "["@ + (*child).debug_text() + "]"@,
            SyntaxChildren::Many(children) => "["@ + joined(
                rule_names(rules_of(children@)),
                ", "@,
            ) + "]"@,
        }
    }

    /// Shows the children to a developer.
    pub fn debug_string(&self) -> (text: String)
        ensures
            text@ == self.debug_text(),
        decreases self,
    {
        let mut text = String::from_str("[");
        match self {
            SyntaxChildren::One(child) => {
                text.append(child.debug_string().as_str());
            },
            SyntaxChildren::Many(children) => {
                let mut names: Vec<String> = Vec::new();
                let mut i: usize = 0;
                while i < children.len()
                    invariant
                        i <= children.len(),
                        names@.len() == i,
                        forall|j: int|
                            0 <= j < i ==> (#[trigger] names@[j])@ == children@[j].rule.name_spec(),
                    decreases children.len() - i,
                {
                    names.push(children[i].rule.name());
                    i += 1;
                }
                assert(texts_of(names@) =~= rule_names(rules_of(children@)));
                text.append(join_texts(&names, ", ").as_str());
            },
        }
        text.append("]");
        text
    }
}

impl<R: RuleType> SyntaxTree<R> {
    /// How the node is shown to a developer: as a `TreeLeaf` with its rule
    /// and the description of what it matched, or as a `TreeNode` with its
    /// children on top.
    pub open spec fn debug_text(self) -> Seq<char>
        decreases self,
    {
        match self.children {
            None => "TreeLeaf { rule: "@ + self.rule.name_spec() + ", providence: "@
                + self.providence@.description() + " }"@,
            Some(children) => "TreeNode { rule: "@ + self.rule.name_spec() + ", providence: "@
                + self.providence@.description() + ", children: "@ + children.debug_text()
                + " }"@,
        }
    }

    /// Shows the node to a developer.
    pub fn debug_string(&self) -> (text: String)
        ensures
            text@ == self.debug_text(),
        decreases self,
    {
        match &self.children {
            None => {
                let mut text = String::from_str("TreeLeaf { rule: ");
                text.append(self.rule.name().as_str());
                text.append(", providence: ");
                text.append(self.providence.describe().as_str());
                text.append(" }");
                text
            },
            Some(children) => {
                let mut text = String::from_str("TreeNode { rule: ");
                text.append(self.rule.name().as_str());
                text.append(", providence: ");
                text.append(self.providence.describe().as_str());
                text.append(", children: ");
                text.append(children.debug_string().as_str());
                text.append(" }");
                text
            },
        }
    }
}

} // verus!
