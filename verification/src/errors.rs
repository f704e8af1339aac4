//! The failures of packing: a closed set of variants, and the error that
//! carries one of them together with the trail of rules it passed through.

use vstd::prelude::*;
use vstd::string::*;
use crate::rules::RuleType;
use crate::text::{decimal_digits, decimal_text, join_texts, joined, texts_of};

verus! {

/// A rule that was found, with the source text of the node that carried it.
#[derive(Debug)]
pub struct RuleAndProvidence<R>(pub R, pub String);

impl<R> View for RuleAndProvidence<R> {
    type V = (R, Seq<char>);

    open spec fn view(&self) -> (R, Seq<char>) {
        (self.0, self.1@)
    }
}

/// What went wrong.
#[derive(Debug)]
#[allow(inconsistent_fields)]
pub enum PackingErrorVariant<R> {
    /// The children found are not the sequence that was expected.
    WrongSequence { found: Vec<RuleAndProvidence<R>>, expected: Option<Vec<R>> },
    /// The node found is none of the alternatives that were expected.
    WrongAlternative { found: RuleAndProvidence<R>, expected: Vec<R> },
    /// Fewer children than `expected_count` were present.
    TooFew { present: Vec<RuleAndProvidence<R>>, expected: Option<Vec<R>>, expected_count: usize },
    /// More children than `expected_count` were present.
    TooMany { present: Vec<RuleAndProvidence<R>>, expected: Option<Vec<R>>, expected_count: usize },
    /// A child was needed and the node has none.
    NoChildrenFound { expected: Option<Vec<R>> },
    /// The text of a leaf could not be turned into the value it stands for.
    LeafTransformFailed { message: String },
}

/// The mathematical content of a [`PackingErrorVariant`].
#[allow(inconsistent_fields)]
pub enum VariantView<R> {
    WrongSequence { found: Seq<(R, Seq<char>)>, expected: Option<Seq<R>> },
    WrongAlternative { found: (R, Seq<char>), expected: Seq<R> },
    TooFew { present: Seq<(R, Seq<char>)>, expected: Option<Seq<R>>, expected_count: nat },
    TooMany { present: Seq<(R, Seq<char>)>, expected: Option<Seq<R>>, expected_count: nat },
    NoChildrenFound { expected: Option<Seq<R>> },
    LeafTransformFailed { message: Seq<char> },
}

/// The mathematical content of a [`PackingError`]: the variant, and the rules
/// that signed the error on its way out, innermost first.
pub struct ErrorView<R> {
    pub variant: VariantView<R>,
    pub context: Seq<R>,
}

/// The contents of a list of found rules.
pub open spec fn found_views<R>(found: Seq<RuleAndProvidence<R>>) -> Seq<(R, Seq<char>)> {
    found.map_values(|f: RuleAndProvidence<R>| f@)
}

/// The contents of an optional list of rules.
pub open spec fn rules_view<R>(rules: Option<Vec<R>>) -> Option<Seq<R>> {
    match rules {
        Some(rules) => Some(rules@),
        None => None,
    }
}

impl<R> View for PackingErrorVariant<R> {
    type V = VariantView<R>;

    open spec fn view(&self) -> VariantView<R> {
        match *self {
            PackingErrorVariant::WrongSequence { found, expected } => VariantView::WrongSequence {
                found: found_views(found@),
                expected: rules_view(expected),
            },
            PackingErrorVariant::WrongAlternative { found, expected } => VariantView::WrongAlternative {
                found: found@,
                expected: expected@,
            },
            PackingErrorVariant::TooFew { present, expected, expected_count } => VariantView::TooFew {
                present: found_views(present@),
                expected: rules_view(expected),
                expected_count: expected_count as nat,
            },
            PackingErrorVariant::TooMany { present, expected, expected_count } => VariantView::TooMany {
                present: found_views(present@),
                expected: rules_view(expected),
                expected_count: expected_count as nat,
            },
            PackingErrorVariant::NoChildrenFound { expected } => VariantView::NoChildrenFound {
                expected: rules_view(expected),
            },
            PackingErrorVariant::LeafTransformFailed { message } => VariantView::LeafTransformFailed {
                message: message@,
            },
        }
    }
}

impl<R> ErrorView<R> {
    /// A fresh error: the variant, and no rule in the trail yet.
    pub open spec fn fresh(variant: VariantView<R>) -> ErrorView<R> {
        ErrorView { variant, context: Seq::empty() }
    }

    /// The error signed by one more rule, behind those already in the trail.
    pub open spec fn with_rule(self, rule: R) -> ErrorView<R> {
        ErrorView { variant: self.variant, context: self.context.push(rule) }
    }
}

/// A failure of packing: what went wrong, and the rules of the packing levels
/// that the failure crossed, the innermost first.
#[derive(Debug)]
pub struct PackingError<R> {
    error: PackingErrorVariant<R>,
    context: Vec<R>,
}

impl<R> View for PackingError<R> {
    type V = ErrorView<R>;

    closed spec fn view(&self) -> ErrorView<R> {
        ErrorView { variant: self.error@, context: self.context@ }
    }
}

impl<R> PackingError<R> {
    /// A fresh error with an empty trail.
    pub fn new(error: PackingErrorVariant<R>) -> (e: Self)
        ensures
            e@ == ErrorView::fresh(error@),
    {
        PackingError { error, context: Vec::new() }
    }

    /// The same error, signed by `rule` behind the rules already in its trail.
    pub fn with_rule(self, rule: R) -> (e: Self)
        ensures
            e@ == self@.with_rule(rule),
    {
        let mut signed = self;
        signed.context.push(rule);
        signed
    }

    /// What went wrong.
    pub fn variant(&self) -> (v: &PackingErrorVariant<R>)
        ensures
            v@ == self@.variant,
    {
        &self.error
    }

    /// The rules that signed the error, the innermost first.
    pub fn context(&self) -> (rules: &Vec<R>)
        ensures
            rules@ == self@.context,
    {
        &self.context
    }
}

/// Whether `after` is `before` signed by `rule`: a success is untouched, a
/// failure has the rule appended to its trail.
pub open spec fn signed_by<T, R>(
    before: Result<T, PackingError<R>>,
    rule: R,
    after: Result<T, PackingError<R>>,
) -> bool {
    match before {
        Ok(value) => after == Ok::<T, PackingError<R>>(value),
        Err(e) => after is Err && after->Err_0@ == e@.with_rule(rule),
    }
}

/// Results whose failures can be signed by the rule of the level they cross.
pub trait PackingResult<R>: Sized {
    /// Signs a failure with `rule`; leaves a success as it is.
    fn with_rule(self, rule: R) -> Self;
}

impl<T, R> PackingResult<R> for Result<T, PackingError<R>> {
    fn with_rule(self, rule: R) -> (r: Self)
        ensures
            signed_by(self, rule, r),
    {
        match self {
            Ok(value) => Ok(value),
            Err(e) => Err(e.with_rule(rule)),
        }
    }
}

/// The printable names of a list of rules.
pub open spec fn rule_names<R: RuleType>(rules: Seq<R>) -> Seq<Seq<char>> {
    rules.map_values(|r: R| r.name_spec())
}

/// "RULE(text)": how a found rule is shown.
pub open spec fn found_text<R: RuleType>(found: (R, Seq<char>)) -> Seq<char> {
    found.0.name_spec() + "("@ + found.1 + ")"@
}

/// How a list of found rules is shown.
pub open spec fn found_texts<R: RuleType>(found: Seq<(R, Seq<char>)>) -> Seq<Seq<char>> {
    found.map_values(|f: (R, Seq<char>)| found_text(f))
}

/// A titled line of rule names, or of "[No rules]" where there is no list.
pub open spec fn rules_block<R: RuleType>(key: Seq<char>, rules: Option<Seq<R>>) -> Seq<char> {
    match rules {
        Some(rules) => "  "@ + key + ":\n    "@ + joined(rule_names(rules), ", "@) + "\n"@,
        None => "  "@ + key + ":\n    [No rules]\n"@,
    }
}

/// A titled line of found rules.
pub open spec fn found_block<R: RuleType>(key: Seq<char>, found: Seq<(R, Seq<char>)>) -> Seq<
    char,
> {
    "  "@ + key + ":\n    "@ + joined(found_texts(found), ", "@) + "\n"@
}

impl<R: RuleType> VariantView<R> {
    /// The message of the variant.
    pub open spec fn rendered(self) -> Seq<char> {
        match self {
            VariantView::WrongSequence { found, expected } => {
                "Encountered unexpected sequence of rules:\n"@ + rules_block(
                    "Expected a sequence of the following rules"@,
                    expected,
                ) + found_block("Instead found the following sequence of rules"@, found)
            },
            VariantView::WrongAlternative { found, expected } => {
                "Encountered unexpected rule:\n"@ + rules_block(
                    "Expected any one of the following rules"@,
                    Some(expected),
                ) + "  Instead found the following rule "@ + found_text(found)
            },
            VariantView::TooFew { present, expected, expected_count } => {
                "Found fewer than "@ + decimal_digits(expected_count) + " rules:\n"@ + found_block(
                    "Matching rules"@,
                    present,
                ) + rules_block("Expected rules"@, expected)
            },
            VariantView::TooMany { present, expected, expected_count } => {
                "Found more than "@ + decimal_digits(expected_count) + " rules:\n"@ + found_block(
                    "Matching rules"@,
                    present,
                ) + rules_block("Expected rules"@, expected)
            },
            VariantView::NoChildrenFound { expected } => {
                "Found no children for node:\n"@ + rules_block("Expected rules"@, expected)
            },
            VariantView::LeafTransformFailed { message } => message,
        }
    }
}

/// The lines of the trail: each rule's name, followed by an empty line.
pub open spec fn context_lines<R: RuleType>(context: Seq<R>) -> Seq<char>
    decreases context.len(),
{
    if context.len() == 0 {
        Seq::empty()
    } else {
        context_lines(context.drop_last()) + context.last().name_spec() + "\n\n"@
    }
}

impl<R: RuleType> ErrorView<R> {
    /// The diagnostic: a heading, the variant's message, and the trail in the
    /// order in which it was gathered.
    pub open spec fn rendered(self) -> Seq<char> {
        "PACKING ERROR\n"@ + self.variant.rendered() + "\n"@ + context_lines(self.context)
    }
}

impl<R: RuleType> RuleAndProvidence<R> {
    /// "RULE(text)".
    pub fn render(&self) -> (s: String)
        ensures
            s@ == found_text(self@),
    {
        let mut out = self.0.name();
        out.append("(");
        out.append(self.1.as_str());
        out.append(")");
        out
    }
}

/// The names of `rules`, in order.
fn name_texts<R: RuleType>(rules: &Vec<R>) -> (names: Vec<String>)
    ensures
        texts_of(names@) == rule_names(rules@),
{
    let mut names: Vec<String> = Vec::new();
    let mut i: usize = 0;
    while i < rules.len()
        invariant
            i <= rules.len(),
            names@.len() == i,
            forall|j: int| 0 <= j < i ==> (#[trigger] names@[j])@ == rules@[j].name_spec(),
        decreases rules.len() - i,
    {
        names.push(rules[i].name());
        i += 1;
    }
    assert(texts_of(names@) =~= rule_names(rules@));
    names
}

/// The texts of `found`, in order.
fn found_name_texts<R: RuleType>(found: &Vec<RuleAndProvidence<R>>) -> (texts: Vec<String>)
    ensures
        texts_of(texts@) == found_texts(found_views(found@)),
{
    let mut texts: Vec<String> = Vec::new();
    let mut i: usize = 0;
    while i < found.len()
        invariant
            i <= found.len(),
            texts@.len() == i,
            forall|j: int| 0 <= j < i ==> (#[trigger] texts@[j])@ == found_text(found@[j]@),
        decreases found.len() - i,
    {
        texts.push(found[i].render());
        i += 1;
    }
    assert(texts_of(texts@) =~= found_texts(found_views(found@)));
    texts
}

/// A titled line of rule names.
pub fn debug_vec<R: RuleType>(key: &str, maybe_values: Option<&Vec<R>>) -> (s: String)
    ensures
        s@ == rules_block(
            key@,
            match maybe_values {
                Some(values) => Some(values@),
                None => None,
            },
        ),
{
    let mut out = String::from_str("  ");
    out.append(key);
    match maybe_values {
        Some(values) => {
            out.append(":\n    ");
            let names = name_texts(values);
            out.append(join_texts(&names, ", ").as_str());
            out.append("\n");
        },
        None => {
            out.append(":\n    [No rules]\n");
        },
    }
    out
}

/// A titled line of found rules.
pub fn display_vec<R: RuleType>(key: &str, values: &Vec<RuleAndProvidence<R>>) -> (s: String)
    ensures
        s@ == found_block(key@, found_views(values@)),
{
    let mut out = String::from_str("  ");
    out.append(key);
    out.append(":\n    ");
    let texts = found_name_texts(values);
    out.append(join_texts(&texts, ", ").as_str());
    out.append("\n");
    out
}

impl<R: RuleType> PackingErrorVariant<R> {
    /// The message of the variant.
    pub fn render(&self) -> (s: String)
        ensures
            s@ == self@.rendered(),
    {
        match self {
            PackingErrorVariant::WrongSequence { found, expected } => {
                let mut out = String::from_str("Encountered unexpected sequence of rules:\n");
                out.append(
                    debug_vec("Expected a sequence of the following rules", expected.as_ref()).as_str(),
                );
                out.append(
                    display_vec("Instead found the following sequence of rules", found).as_str(),
                );
                out
            },
            PackingErrorVariant::WrongAlternative { found, expected } => {
                let mut out = String::from_str("Encountered unexpected rule:\n");
                out.append(
                    debug_vec("Expected any one of the following rules", Some(expected)).as_str(),
                );
                out.append("  Instead found the following rule ");
                out.append(found.render().as_str());
                out
            },
            PackingErrorVariant::TooFew { present, expected, expected_count } => {
                let mut out = String::from_str("Found fewer than ");
                out.append(decimal_text(*expected_count).as_str());
                out.append(" rules:\n");
                out.append(display_vec("Matching rules", present).as_str());
                out.append(debug_vec("Expected rules", expected.as_ref()).as_str());
                out
            },
            PackingErrorVariant::TooMany { present, expected, expected_count } => {
                let mut out = String::from_str("Found more than ");
                out.append(decimal_text(*expected_count).as_str());
                out.append(" rules:\n");
                out.append(display_vec("Matching rules", present).as_str());
                out.append(debug_vec("Expected rules", expected.as_ref()).as_str());
                out
            },
            PackingErrorVariant::NoChildrenFound { expected } => {
                let mut out = String::from_str("Found no children for node:\n");
                out.append(debug_vec("Expected rules", expected.as_ref()).as_str());
                out
            },
            PackingErrorVariant::LeafTransformFailed { message } => message.clone(),
        }
    }
}

impl<R: RuleType> PackingError<R> {
    /// The diagnostic: "PACKING ERROR", the variant's message, and then the
    /// trail, one rule to a paragraph, in the order in which it was gathered.
    pub fn render(&self) -> (s: String)
        ensures
            s@ == self@.rendered(),
    {
        let mut out = String::from_str("PACKING ERROR\n");
        out.append(self.error.render().as_str());
        out.append("\n");
        let ghost head = out@;
        let mut i: usize = 0;
        while i < self.context.len()
            invariant
                i <= self.context.len(),
                out@ == head + context_lines(self.context@.subrange(0, i as int)),
            decreases self.context.len() - i,
        {
            let ghost before = self.context@.subrange(0, i as int);
            let ghost after = self.context@.subrange(0, i + 1);
            assert(after.drop_last() == before);
            assert(after.last() == self.context@[i as int]);
            out.append(self.context[i].name().as_str());
            out.append("\n\n");
            i += 1;
        }
        assert(self.context@.subrange(0, i as int) == self.context@);
        out
    }
}

} // verus!
