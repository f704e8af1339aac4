use timesheets::errors::{PackingError, PackingErrorVariant};
use timesheets::grammar::Rule;
use timesheets::pack_trees::{
    ensure_no_more_trees, get_only_tree_child, get_tree_children, get_tree_src_string, get_x_trees,
    into_packing_error, into_packing_error_2, make_wrong_rules_alt_error, pack_1_tree,
    pack_2_trees, pack_each_tree, pack_maybe_2_trees, pack_next_tree, select_alternative,
    unpack_only_tree,
    unpack_tree_pack_1_child, unpack_tree_pack_2_children, unpack_tree_pack_each_child,
    unpack_tree_pack_first_and_rest, unpack_tree_pack_maybe_2_children, HasRule, Model,
    TokenPacker, TokenRepacker,
};
use timesheets::providence::Providence;
use timesheets::timesheet::{Date, DayName, Hours, Minutes, Number};
use timesheets::tree::{SyntaxChildren, SyntaxTree};

type Tree = SyntaxTree<Rule>;
type Outcome<T> = Result<T, PackingError<Rule>>;

fn leaf(rule: Rule, src: &str) -> Tree {
    SyntaxTree {
        rule,
        providence: Providence { start: 0, end: src.len(), line: 1, column: 1, src: src.to_string() },
        children: None,
    }
}

fn node(rule: Rule, src: &str, mut children: Vec<Tree>) -> Tree {
    let children = match children.len() {
        0 => None,
        1 => Some(SyntaxChildren::One(Box::new(children.remove(0)))),
        _ => Some(SyntaxChildren::Many(children)),
    };
    SyntaxTree {
        rule,
        providence: Providence { start: 0, end: src.len(), line: 1, column: 1, src: src.to_string() },
        children,
    }
}

fn number(text: &str) -> Tree {
    leaf(Rule::Numbers, text)
}

fn texts(found: &[timesheets::errors::RuleAndProvidence<Rule>]) -> Vec<(Rule, String)> {
    found.iter().map(|f| (f.0, f.1.clone())).collect()
}

/// Packs from a `log` leaf. Fails on the text "fail", and must never be asked
/// to pack the text "never".
#[derive(Debug, PartialEq)]
struct Probe(String);

impl Model for Probe {
    type V = ();
}

impl HasRule for Probe {
    type Rule = Rule;

    fn get_rule() -> Rule {
        Rule::Log
    }
}

impl TokenPacker for Probe {
    fn pack(tree: Tree) -> Outcome<Probe> {
        match tree.providence.src.as_str() {
            "never" => panic!("a tree behind the failure was packed"),
            "fail" => Err(PackingError::new(PackingErrorVariant::LeafTransformFailed {
                message: "probe failed".to_string(),
            })),
            text => Ok(Probe(text.to_string())),
        }
    }
}

/// A probe that must never be packed.
#[derive(Debug)]
struct Forbidden;

impl Model for Forbidden {
    type V = ();
}

impl HasRule for Forbidden {
    type Rule = Rule;

    fn get_rule() -> Rule {
        Rule::Work
    }
}

impl TokenPacker for Forbidden {
    fn pack(_tree: Tree) -> Outcome<Forbidden> {
        panic!("the wrong alternative was packed")
    }
}

/// The length of a probe, refined from it.
#[derive(Debug, PartialEq)]
struct Length(usize);

impl Model for Length {
    type V = ();
}

impl HasRule for Length {
    type Rule = Rule;

    fn get_rule() -> Rule {
        Rule::Log
    }
}

impl TokenRepacker for Length {
    type Packer = Probe;

    fn repack(packer: Probe) -> Outcome<Length> {
        if packer.0.is_empty() {
            Err(PackingError::new(PackingErrorVariant::LeafTransformFailed {
                message: "empty".to_string(),
            }))
        } else {
            Ok(Length(packer.0.len()))
        }
    }
}

#[test]
fn unpack_only_tree_gives_the_single_tree() {
    let tree = unpack_only_tree(vec![leaf(Rule::Body, "b")]).unwrap();
    assert_eq!(tree.rule, Rule::Body);
    assert_eq!(tree.providence.src, "b");
}

#[test]
fn unpack_only_tree_of_nothing_is_no_children_found() {
    let e = unpack_only_tree::<Rule>(vec![]).unwrap_err();
    assert!(matches!(e.variant(), PackingErrorVariant::NoChildrenFound { expected: None }));
    assert!(e.context().is_empty());
}

#[test]
fn unpack_only_tree_of_several_is_too_many_of_the_first_two() {
    let e = unpack_only_tree(vec![leaf(Rule::Body, "a"), leaf(Rule::Week, "b"), leaf(Rule::Day, "c")])
        .unwrap_err();
    match e.variant() {
        PackingErrorVariant::TooMany { present, expected, expected_count } => {
            assert_eq!(
                texts(present),
                vec![(Rule::Body, "a".to_string()), (Rule::Week, "b".to_string())]
            );
            assert_eq!(expected, &None);
            assert_eq!(*expected_count, 1);
        }
        _ => panic!("expected TooMany"),
    }
    assert!(e.context().is_empty());
}

#[test]
fn leaf_text_is_trimmed() {
    assert_eq!(get_tree_src_string(leaf(Rule::Date, "  2024-01-01 \t\n"), Rule::Date).unwrap(), "2024-01-01");
    assert_eq!(get_tree_src_string(leaf(Rule::Date, "\u{a0}\u{2003}x y\u{3000}"), Rule::Date).unwrap(), "x y");
    assert_eq!(get_tree_src_string(leaf(Rule::Date, " \t "), Rule::Date).unwrap(), "");
}

#[test]
fn leaf_text_of_another_rule_is_wrong_sequence() {
    let e = get_tree_src_string(leaf(Rule::DayName, "Mon"), Rule::Date).unwrap_err();
    match e.variant() {
        PackingErrorVariant::WrongSequence { found, expected } => {
            assert_eq!(texts(found), vec![(Rule::DayName, "Mon".to_string())]);
            assert_eq!(expected, &Some(vec![Rule::Date]));
        }
        _ => panic!("expected WrongSequence"),
    }
    assert_eq!(e.context(), &vec![Rule::Date]);
}

#[test]
fn leaf_text_of_a_node_with_children_is_too_many() {
    let tree = node(Rule::Date, "ab", vec![leaf(Rule::Numbers, "a"), leaf(Rule::Numbers, "b")]);
    let e = get_tree_src_string(tree, Rule::Date).unwrap_err();
    match e.variant() {
        PackingErrorVariant::TooMany { present, expected, expected_count } => {
            assert_eq!(present.len(), 2);
            assert_eq!(expected, &None);
            assert_eq!(*expected_count, 0);
        }
        _ => panic!("expected TooMany"),
    }
    assert_eq!(e.context(), &vec![Rule::Date]);
}

#[test]
fn tree_children_of_a_leaf_are_none() {
    assert!(get_tree_children(leaf(Rule::Days, ""), Rule::Days).unwrap().is_empty());
}

#[test]
fn tree_children_come_in_order() {
    let tree = node(Rule::Days, "", vec![leaf(Rule::Day, "a"), leaf(Rule::Day, "b"), leaf(Rule::Day, "c")]);
    let children = get_tree_children(tree, Rule::Days).unwrap();
    let srcs: Vec<&str> = children.iter().map(|c| c.providence.src.as_str()).collect();
    assert_eq!(srcs, vec!["a", "b", "c"]);
}

#[test]
fn tree_children_of_another_rule_fail_signed() {
    let e = get_tree_children(leaf(Rule::Day, "d"), Rule::Days).unwrap_err();
    assert!(matches!(e.variant(), PackingErrorVariant::WrongSequence { .. }));
    assert_eq!(e.context(), &vec![Rule::Days]);
}

#[test]
fn only_tree_child_is_the_sole_child() {
    let tree = node(Rule::Log, "l", vec![leaf(Rule::LogEvent, "e")]);
    assert_eq!(get_only_tree_child(tree, Rule::Log).unwrap().rule, Rule::LogEvent);
}

#[test]
fn only_tree_child_of_a_leaf_is_no_children_found() {
    let e = get_only_tree_child(leaf(Rule::Log, "l"), Rule::Log).unwrap_err();
    assert!(matches!(e.variant(), PackingErrorVariant::NoChildrenFound { expected: None }));
    assert_eq!(e.context(), &vec![Rule::Log]);
}

#[test]
fn only_tree_child_of_two_is_too_many() {
    let tree = node(Rule::Log, "l", vec![leaf(Rule::LogEvent, "a"), leaf(Rule::LogEvent, "b")]);
    let e = get_only_tree_child(tree, Rule::Log).unwrap_err();
    assert!(matches!(e.variant(), PackingErrorVariant::TooMany { expected_count: 1, .. }));
    assert_eq!(e.context(), &vec![Rule::Log]);
}

#[test]
fn is_packable_compares_rules() {
    assert!(Probe::is_packable(&leaf(Rule::Log, "x")));
    assert!(!Probe::is_packable(&leaf(Rule::Day, "x")));
    assert!(Date::is_packable(&leaf(Rule::Date, "x")));
    assert!(!Date::is_packable(&leaf(Rule::DayName, "x")));
}

#[test]
fn pack_each_child_packs_all_in_order() {
    let tree = node(Rule::Day, "", vec![leaf(Rule::Log, "a"), leaf(Rule::Log, "b"), leaf(Rule::Log, "c")]);
    let packed = unpack_tree_pack_each_child::<Probe>(tree, Rule::Day).unwrap();
    assert_eq!(packed, vec![Probe("a".into()), Probe("b".into()), Probe("c".into())]);
}

#[test]
fn pack_each_child_of_a_leaf_is_empty() {
    let packed = unpack_tree_pack_each_child::<Probe>(leaf(Rule::Day, ""), Rule::Day).unwrap();
    assert!(packed.is_empty());
}

#[test]
fn pack_each_child_of_one_child() {
    let tree = node(Rule::Day, "", vec![leaf(Rule::Log, "a")]);
    let packed = unpack_tree_pack_each_child::<Probe>(tree, Rule::Day).unwrap();
    assert_eq!(packed, vec![Probe("a".into())]);
}

#[test]
fn pack_each_child_fails_fast() {
    let tree = node(
        Rule::Day,
        "",
        vec![leaf(Rule::Log, "a"), leaf(Rule::Log, "fail"), leaf(Rule::Log, "never"), leaf(Rule::Log, "never")],
    );
    let e = unpack_tree_pack_each_child::<Probe>(tree, Rule::Day).unwrap_err();
    match e.variant() {
        PackingErrorVariant::LeafTransformFailed { message } => assert_eq!(message, "probe failed"),
        _ => panic!("expected the failure of the probe"),
    }
    assert_eq!(e.context(), &vec![Rule::Day]);
}

#[test]
fn pack_each_child_fails_at_the_first_tree() {
    let tree = node(Rule::Day, "", vec![leaf(Rule::Log, "fail"), leaf(Rule::Log, "never")]);
    assert!(unpack_tree_pack_each_child::<Probe>(tree, Rule::Day).is_err());
}

#[test]
fn pack_one_child_packs_the_sole_child() {
    let tree = node(Rule::LogEvent, "", vec![leaf(Rule::Log, "x")]);
    assert_eq!(unpack_tree_pack_1_child::<Probe>(tree, Rule::LogEvent).unwrap(), Probe("x".into()));
}

#[test]
fn pack_one_child_of_none_and_of_two() {
    let e = unpack_tree_pack_1_child::<Probe>(leaf(Rule::LogEvent, ""), Rule::LogEvent).unwrap_err();
    assert!(matches!(e.variant(), PackingErrorVariant::NoChildrenFound { expected: None }));
    assert_eq!(e.context(), &vec![Rule::LogEvent]);
    let tree = node(Rule::LogEvent, "", vec![leaf(Rule::Log, "never"), leaf(Rule::Log, "never")]);
    let e = unpack_tree_pack_1_child::<Probe>(tree, Rule::LogEvent).unwrap_err();
    assert!(matches!(e.variant(), PackingErrorVariant::TooMany { expected_count: 1, .. }));
    assert_eq!(e.context(), &vec![Rule::LogEvent]);
}

#[test]
fn two_children_are_packed_by_position() {
    let tree = node(Rule::Week, "", vec![number("08"), number("30")]);
    let (first, second) = unpack_tree_pack_2_children::<Number, Number, Rule>(tree, Rule::Week).unwrap();
    assert_eq!((first.0, second.0), (8, 30));
    let swapped = node(Rule::Week, "", vec![number("30"), number("08")]);
    let (first, second) =
        unpack_tree_pack_2_children::<Number, Number, Rule>(swapped, Rule::Week).unwrap();
    assert_eq!((first.0, second.0), (30, 8));
}

#[test]
fn two_children_of_different_types_do_not_swap() {
    let hours = node(Rule::PeriodHours, "08", vec![number("08")]);
    let minutes = node(Rule::PeriodMinutes, "30", vec![number("30")]);
    let tree = node(Rule::PeriodHoursMinutes, "", vec![hours, minutes]);
    let (h, m) =
        unpack_tree_pack_2_children::<Hours, Minutes, Rule>(tree, Rule::PeriodHoursMinutes).unwrap();
    assert_eq!((h.0 .0, m.0 .0), (8, 30));
    let hours = node(Rule::PeriodHours, "08", vec![number("08")]);
    let minutes = node(Rule::PeriodMinutes, "30", vec![number("30")]);
    let swapped = node(Rule::PeriodHoursMinutes, "", vec![minutes, hours]);
    let e = unpack_tree_pack_2_children::<Hours, Minutes, Rule>(swapped, Rule::PeriodHoursMinutes)
        .unwrap_err();
    assert!(matches!(e.variant(), PackingErrorVariant::WrongSequence { .. }));
    assert_eq!(e.context(), &vec![Rule::PeriodHours, Rule::PeriodHoursMinutes]);
}

#[test]
fn two_children_with_one_child_is_too_few() {
    let tree = node(Rule::Week, "", vec![leaf(Rule::Date, "d")]);
    let e = unpack_tree_pack_2_children::<Date, DayName, Rule>(tree, Rule::Week).unwrap_err();
    match e.variant() {
        PackingErrorVariant::TooFew { present, expected, expected_count } => {
            assert_eq!(texts(present), vec![(Rule::Date, "d".to_string())]);
            assert_eq!(expected, &Some(vec![Rule::Date, Rule::DayName]));
            assert_eq!(*expected_count, 2);
        }
        _ => panic!("expected TooFew"),
    }
    assert_eq!(e.context(), &vec![Rule::Week]);
}

#[test]
fn two_children_with_three_children_is_too_many() {
    let tree = node(Rule::Week, "", vec![leaf(Rule::Date, "a"), leaf(Rule::DayName, "b"), leaf(Rule::Date, "c")]);
    let e = unpack_tree_pack_2_children::<Date, DayName, Rule>(tree, Rule::Week).unwrap_err();
    match e.variant() {
        PackingErrorVariant::TooMany { present, expected, expected_count } => {
            assert_eq!(present.len(), 3);
            assert_eq!(expected, &Some(vec![Rule::Date, Rule::DayName]));
            assert_eq!(*expected_count, 2);
        }
        _ => panic!("expected TooMany"),
    }
}

#[test]
fn two_children_with_no_child_is_no_children_found() {
    let e = unpack_tree_pack_2_children::<Date, DayName, Rule>(leaf(Rule::Week, ""), Rule::Week)
        .unwrap_err();
    match e.variant() {
        PackingErrorVariant::NoChildrenFound { expected } => {
            assert_eq!(expected, &Some(vec![Rule::Date, Rule::DayName]))
        }
        _ => panic!("expected NoChildrenFound"),
    }
}

#[test]
fn two_children_stop_at_the_first_failure() {
    let tree = node(Rule::Week, "", vec![leaf(Rule::Log, "fail"), leaf(Rule::Log, "never")]);
    assert!(unpack_tree_pack_2_children::<Probe, Probe, Rule>(tree, Rule::Week).is_err());
}

#[test]
fn optional_second_child() {
    let tree = node(Rule::Week, "", vec![leaf(Rule::Date, "a")]);
    let (first, second) =
        unpack_tree_pack_maybe_2_children::<Date, DayName, Rule>(tree, Rule::Week).unwrap();
    assert_eq!(first.0, "a");
    assert!(second.is_none());
    let tree = node(Rule::Week, "", vec![leaf(Rule::Date, "a"), leaf(Rule::DayName, "b")]);
    let (first, second) =
        unpack_tree_pack_maybe_2_children::<Date, DayName, Rule>(tree, Rule::Week).unwrap();
    assert_eq!(first.0, "a");
    assert_eq!(second.unwrap().0, "b");
}

#[test]
fn optional_second_child_needs_a_first() {
    let e = unpack_tree_pack_maybe_2_children::<Date, DayName, Rule>(leaf(Rule::Week, ""), Rule::Week)
        .unwrap_err();
    assert!(matches!(e.variant(), PackingErrorVariant::NoChildrenFound { expected: None }));
    assert_eq!(e.context(), &vec![Rule::Week]);
}

#[test]
fn optional_second_child_takes_no_third() {
    let tree = node(Rule::Week, "", vec![leaf(Rule::Date, "a"), leaf(Rule::DayName, "b"), leaf(Rule::Date, "c")]);
    let e = unpack_tree_pack_maybe_2_children::<Date, DayName, Rule>(tree, Rule::Week).unwrap_err();
    assert!(matches!(e.variant(), PackingErrorVariant::TooMany { expected_count: 2, expected: None, .. }));
}

#[test]
fn first_and_rest() {
    let tree = node(Rule::Day, "", vec![leaf(Rule::DayName, "Mon"), leaf(Rule::Log, "a"), leaf(Rule::Log, "b")]);
    let (name, rest) = unpack_tree_pack_first_and_rest::<DayName, Probe, Rule>(tree, Rule::Day).unwrap();
    assert_eq!(name.0, "Mon");
    assert_eq!(rest, vec![Probe("a".into()), Probe("b".into())]);
    let tree = node(Rule::Day, "", vec![leaf(Rule::DayName, "Tue")]);
    let (name, rest) = unpack_tree_pack_first_and_rest::<DayName, Probe, Rule>(tree, Rule::Day).unwrap();
    assert_eq!(name.0, "Tue");
    assert!(rest.is_empty());
}

#[test]
fn first_and_rest_needs_a_first() {
    let e = unpack_tree_pack_first_and_rest::<DayName, Probe, Rule>(leaf(Rule::Day, ""), Rule::Day)
        .unwrap_err();
    match e.variant() {
        PackingErrorVariant::NoChildrenFound { expected } => {
            assert_eq!(expected, &Some(vec![Rule::DayName]))
        }
        _ => panic!("expected NoChildrenFound"),
    }
    assert_eq!(e.context(), &vec![Rule::Day]);
}

#[test]
fn alternation_selects_by_rule() {
    let candidates = vec![Rule::Work, Rule::Lunch, Rule::Leave];
    let (at, tree) = select_alternative(leaf(Rule::Lunch, "l"), candidates.clone()).unwrap();
    assert_eq!(at, 1);
    assert_eq!(tree.rule, Rule::Lunch);
    assert_eq!(select_alternative(leaf(Rule::Work, "w"), candidates.clone()).unwrap().0, 0);
    assert_eq!(select_alternative(leaf(Rule::Leave, "w"), candidates).unwrap().0, 2);
}

#[test]
fn alternation_takes_the_first_of_equal_candidates() {
    let (at, _) = select_alternative(leaf(Rule::Lunch, "l"), vec![Rule::Work, Rule::Lunch, Rule::Lunch]).unwrap();
    assert_eq!(at, 1);
}

#[test]
fn alternation_without_match_names_all_candidates() {
    let e = select_alternative(leaf(Rule::Break, "b"), vec![Rule::Work, Rule::Lunch, Rule::Leave])
        .unwrap_err();
    match e.variant() {
        PackingErrorVariant::WrongAlternative { found, expected } => {
            assert_eq!((found.0, found.1.as_str()), (Rule::Break, "b"));
            assert_eq!(expected, &vec![Rule::Work, Rule::Lunch, Rule::Leave]);
        }
        _ => panic!("expected WrongAlternative"),
    }
    assert!(e.context().is_empty());
}

#[test]
fn alternation_dispatches_to_the_matching_packer_only() {
    // The candidates are a forbidden packer of `work`, the probe of `log`,
    // and the forbidden packer again; the node is a `log`.
    let candidates = vec![Forbidden::get_rule(), Probe::get_rule(), Forbidden::get_rule()];
    let (at, tree) = select_alternative(leaf(Rule::Log, "x"), candidates).unwrap();
    let packed = match at {
        1 => Probe::pack(tree).map(|p| p.0),
        _ => Forbidden::pack(tree).map(|_| String::new()),
    };
    assert_eq!(packed.unwrap(), "x");
}

#[test]
fn make_wrong_rules_alt_error_names_the_node() {
    let e = make_wrong_rules_alt_error(leaf(Rule::Date, "d"), vec![Rule::Now, Rule::Time]);
    match e.variant() {
        PackingErrorVariant::WrongAlternative { found, expected } => {
            assert_eq!((found.0, found.1.as_str()), (Rule::Date, "d"));
            assert_eq!(expected, &vec![Rule::Now, Rule::Time]);
        }
        _ => panic!("expected WrongAlternative"),
    }
}

#[test]
fn pull_protocol_packs_in_order_and_checks_the_end() {
    let mut trees = vec![leaf(Rule::Date, "d"), leaf(Rule::DayName, "n"), leaf(Rule::Log, "p")].into_iter();
    let date: Date = pack_next_tree(&mut trees).unwrap();
    let name: DayName = pack_next_tree(&mut trees).unwrap();
    let probe: Probe = pack_next_tree(&mut trees).unwrap();
    assert_eq!((date.0.as_str(), name.0.as_str(), probe.0.as_str()), ("d", "n", "p"));
    assert!(ensure_no_more_trees(trees).is_ok());
}

#[test]
fn pull_protocol_fails_when_exhausted() {
    let mut trees = vec![leaf(Rule::Date, "d")].into_iter();
    let _date: Date = pack_next_tree(&mut trees).unwrap();
    let e = pack_next_tree::<_, DayName>(&mut trees).unwrap_err();
    match e.variant() {
        PackingErrorVariant::NoChildrenFound { expected } => {
            assert_eq!(expected, &Some(vec![Rule::DayName]))
        }
        _ => panic!("expected NoChildrenFound"),
    }
}

#[test]
fn pull_protocol_fails_on_left_over_trees() {
    let mut trees = vec![leaf(Rule::Date, "d"), leaf(Rule::Log, "extra"), leaf(Rule::Log, "more")].into_iter();
    let _date: Date = pack_next_tree(&mut trees).unwrap();
    let e = ensure_no_more_trees(trees).unwrap_err();
    match e.variant() {
        PackingErrorVariant::TooMany { present, expected, expected_count } => {
            assert_eq!(texts(present), vec![(Rule::Log, "extra".to_string())]);
            assert_eq!(expected, &None);
            assert_eq!(*expected_count, 0);
        }
        _ => panic!("expected TooMany"),
    }
}

#[test]
fn get_x_trees_gives_an_array_of_the_right_length() {
    let [a, b] = get_x_trees::<2, Rule>(vec![leaf(Rule::Date, "a"), leaf(Rule::Days, "b")]).unwrap();
    assert_eq!((a.providence.src.as_str(), b.providence.src.as_str()), ("a", "b"));
    let none: [Tree; 0] = get_x_trees::<0, Rule>(vec![]).unwrap();
    assert_eq!(none.len(), 0);
}

#[test]
fn get_x_trees_of_another_length_fails() {
    let e = get_x_trees::<3, Rule>(vec![leaf(Rule::Date, "a")]).unwrap_err();
    assert!(matches!(e.variant(), PackingErrorVariant::TooFew { expected_count: 3, expected: None, .. }));
    let e = get_x_trees::<1, Rule>(vec![leaf(Rule::Date, "a"), leaf(Rule::Date, "b")]).unwrap_err();
    match e.variant() {
        PackingErrorVariant::TooMany { present, expected_count, .. } => {
            assert_eq!(present.len(), 2);
            assert_eq!(*expected_count, 1);
        }
        _ => panic!("expected TooMany"),
    }
}

#[test]
fn repacker_packs_and_refines() {
    assert_eq!(Length::pack(leaf(Rule::Log, "four")).unwrap(), Length(4));
}

#[test]
fn repacker_hands_on_both_failures() {
    let e = Length::pack(leaf(Rule::Log, "fail")).unwrap_err();
    assert!(matches!(e.variant(), PackingErrorVariant::LeafTransformFailed { message } if message == "probe failed"));
    let e = Length::pack(leaf(Rule::Log, "")).unwrap_err();
    assert!(matches!(e.variant(), PackingErrorVariant::LeafTransformFailed { message } if message == "empty"));
    assert!(e.context().is_empty());
}

#[test]
fn pack_each_tree_returns_the_first_failure_as_it_is() {
    let e = pack_each_tree::<Probe>(vec![
        leaf(Rule::Log, "a"),
        leaf(Rule::Log, "b"),
        leaf(Rule::Log, "fail"),
        leaf(Rule::Log, "never"),
    ])
    .unwrap_err();
    match e.variant() {
        PackingErrorVariant::LeafTransformFailed { message } => assert_eq!(message, "probe failed"),
        _ => panic!("expected the failure of the probe"),
    }
    assert!(e.context().is_empty());
}

#[test]
fn pack_each_tree_keeps_the_context_of_the_failure() {
    // The second date is a day name: its failure is signed by the date, and
    // by nothing else.
    let e = pack_each_tree::<Date>(vec![leaf(Rule::Date, "a"), leaf(Rule::DayName, "b"), leaf(Rule::Week, "c")])
        .unwrap_err();
    match e.variant() {
        PackingErrorVariant::WrongSequence { found, expected } => {
            assert_eq!(texts(found), vec![(Rule::DayName, "b".to_string())]);
            assert_eq!(expected, &Some(vec![Rule::Date]));
        }
        _ => panic!("expected WrongSequence"),
    }
    assert_eq!(e.context(), &vec![Rule::Date]);
}

#[test]
fn pack_each_tree_packs_all_or_nothing() {
    let packed = pack_each_tree::<Probe>(vec![leaf(Rule::Log, "a"), leaf(Rule::Log, "b")]).unwrap();
    assert_eq!(packed, vec![Probe("a".into()), Probe("b".into())]);
    assert!(pack_each_tree::<Probe>(vec![]).unwrap().is_empty());
}

#[test]
fn pack_1_tree_wants_one_tree() {
    assert_eq!(pack_1_tree::<Probe>(vec![leaf(Rule::Log, "x")]).unwrap(), Probe("x".into()));
    let e = pack_1_tree::<Probe>(vec![]).unwrap_err();
    assert!(matches!(e.variant(), PackingErrorVariant::NoChildrenFound { expected: None }));
    let e = pack_1_tree::<Probe>(vec![leaf(Rule::Log, "never"), leaf(Rule::Log, "never")]).unwrap_err();
    assert!(matches!(e.variant(), PackingErrorVariant::TooMany { expected_count: 1, .. }));
    assert!(e.context().is_empty());
}

#[test]
fn pack_2_trees_wants_two_trees() {
    let (a, b) = pack_2_trees::<Date, DayName, Rule>(vec![leaf(Rule::Date, "d"), leaf(Rule::DayName, "n")]).unwrap();
    assert_eq!((a.0.as_str(), b.0.as_str()), ("d", "n"));
    let e = pack_2_trees::<Date, DayName, Rule>(vec![leaf(Rule::Date, "d")]).unwrap_err();
    assert!(matches!(e.variant(), PackingErrorVariant::TooFew { expected_count: 2, .. }));
    assert!(e.context().is_empty());
}

#[test]
fn pack_maybe_2_trees_wants_one_or_two_trees() {
    let (a, b) = pack_maybe_2_trees::<Date, DayName, Rule>(vec![leaf(Rule::Date, "d")]).unwrap();
    assert_eq!(a.0, "d");
    assert!(b.is_none());
    let e = pack_maybe_2_trees::<Date, DayName, Rule>(vec![]).unwrap_err();
    assert!(matches!(e.variant(), PackingErrorVariant::NoChildrenFound { expected: None }));
}

#[test]
fn errors_for_one_wanted() {
    let e = into_packing_error((Some(leaf(Rule::Date, "d")), None), Some(Rule::Days));
    match e.variant() {
        PackingErrorVariant::WrongSequence { found, expected } => {
            assert_eq!(texts(found), vec![(Rule::Date, "d".to_string())]);
            assert_eq!(expected, &Some(vec![Rule::Days]));
        }
        _ => panic!("expected WrongSequence"),
    }
    let e = into_packing_error((Some(leaf(Rule::Date, "a")), Some(leaf(Rule::Date, "b"))), None);
    assert!(matches!(e.variant(), PackingErrorVariant::TooMany { expected_count: 1, expected: None, .. }));
    let e = into_packing_error::<Rule>((None, Some(leaf(Rule::Date, "b"))), Some(Rule::Days));
    match e.variant() {
        PackingErrorVariant::NoChildrenFound { expected } => assert_eq!(expected, &Some(vec![Rule::Days])),
        _ => panic!("expected NoChildrenFound"),
    }
}

#[test]
fn errors_for_two_wanted() {
    let tree = |text: &str| Some(leaf(Rule::Date, text));
    let e = into_packing_error_2((tree("a"), tree("b"), None), Some(vec![Rule::Week]));
    match e.variant() {
        PackingErrorVariant::WrongSequence { found, expected } => {
            assert_eq!(found.len(), 2);
            assert_eq!(expected, &Some(vec![Rule::Week]));
        }
        _ => panic!("expected WrongSequence"),
    }
    let e = into_packing_error_2((tree("a"), tree("b"), tree("c")), None);
    assert!(matches!(e.variant(), PackingErrorVariant::TooMany { expected_count: 2, .. }));
    let e = into_packing_error_2((tree("a"), None, tree("c")), None);
    match e.variant() {
        PackingErrorVariant::TooFew { present, expected_count, .. } => {
            assert_eq!(texts(present), vec![(Rule::Date, "a".to_string())]);
            assert_eq!(*expected_count, 2);
        }
        _ => panic!("expected TooFew"),
    }
    let e = into_packing_error_2::<Rule>((None, None, None), None);
    assert!(matches!(e.variant(), PackingErrorVariant::NoChildrenFound { expected: None }));
}
