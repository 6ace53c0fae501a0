//! The wire format of a filter and its translation into a condition tree.

use crate::condition::{
    literals, Comparison, ConditionTree, ConditionView, Matching, Predicate, PredicateView,
};
use crate::error::{Error, ErrorKind};
use crate::value::{DatabaseValue, Literal, PrismaValue};
use vstd::prelude::*;

verus! {

/// The slot of one scalar value. A message that was decoded without a value
/// leaves it empty.
#[derive(Debug, PartialEq, Eq)]
pub struct ValueContainer {
    pub prisma_value: Option<PrismaValue>,
}

/// The slots of a list of scalar values.
#[derive(Debug, PartialEq, Eq)]
pub struct MultiContainer {
    pub values: Vec<ValueContainer>,
}

/// The comparison of a scalar filter, with the value or values it compares
/// the field to.
#[derive(Debug, PartialEq, Eq)]
pub enum ScalarCondition {
    Equals(ValueContainer),
    NotEquals(ValueContainer),
    Contains(ValueContainer),
    NotContains(ValueContainer),
    StartsWith(ValueContainer),
    NotStartsWith(ValueContainer),
    EndsWith(ValueContainer),
    NotEndsWith(ValueContainer),
    LessThan(ValueContainer),
    LessThanOrEquals(ValueContainer),
    GreaterThan(ValueContainer),
    GreaterThanOrEquals(ValueContainer),
    In(MultiContainer),
    NotIn(MultiContainer),
}

/// A condition on one scalar field.
#[derive(Debug, PartialEq, Eq)]
pub struct ScalarFilter {
    pub field: String,
    pub condition: Option<ScalarCondition>,
}

/// Holds where all of its filters hold.
#[derive(Debug, PartialEq, Eq)]
pub struct AndFilter {
    pub filters: Vec<Filter>,
}

/// Holds where one of its filters holds.
#[derive(Debug, PartialEq, Eq)]
pub struct OrFilter {
    pub filters: Vec<Filter>,
}

/// Holds where not all of its filters hold.
#[derive(Debug, PartialEq, Eq)]
pub struct NotFilter {
    pub filters: Vec<Filter>,
}

/// The variants of a filter. The last two are part of the wire format but
/// have no translation.
#[derive(Debug, PartialEq, Eq)]
pub enum FilterType {
    And(AndFilter),
    Or(OrFilter),
    Not(NotFilter),
    Scalar(ScalarFilter),
    BoolFilter(bool),
    OneRelationIsNull(String),
    NodeSubscription(bool),
}

/// A filter as decoded from a request. A message that was decoded without a
/// variant leaves `type_` empty.
#[derive(Debug, PartialEq, Eq)]
pub struct Filter {
    pub type_: Option<FilterType>,
}

/// How the conditions of a list of filters are joined.
#[derive(Clone, Copy, Debug, PartialEq, Eq, Structural)]
pub enum Connective {
    And,
    Or,
}

/// What a translation returns, in mathematical terms: the value of the tree,
/// or the kind of the failure.
pub open spec fn outcome(r: Result<ConditionTree, Error>) -> Result<ConditionView, ErrorKind> {
    match r {
        Ok(tree) => Ok(tree@),
        Err(e) => Err(e.kind()),
    }
}

/// Whether every slot holds a value.
pub open spec fn all_present(values: Seq<ValueContainer>) -> bool {
    forall|i: int| 0 <= i < values.len() ==> (#[trigger] values[i]).prisma_value is Some
}

/// The literals that the values in the slots are coerced to.
pub open spec fn value_literals(values: Seq<ValueContainer>) -> Seq<Literal> {
    Seq::new(values.len(), |i: int| values[i].prisma_value.unwrap().literal())
}

/// The condition of a comparison of a field with the value in a slot. An
/// empty slot is an invalid input. Equality and inequality with the null
/// marker are the tests for null.
pub open spec fn compared(
    field: Seq<char>,
    comparison: Comparison,
    value: ValueContainer,
) -> Result<ConditionView, ErrorKind> {
    match value.prisma_value {
        None => Err(ErrorKind::InvalidInput),
        Some(v) => if v is Null && comparison is Equals {
            Ok(ConditionView::Single(PredicateView::IsNull(field)))
        } else if v is Null && comparison is NotEquals {
            Ok(ConditionView::Single(PredicateView::IsNotNull(field)))
        } else {
            Ok(ConditionView::Single(PredicateView::Compare(field, comparison, v.literal())))
        },
    }
}

/// The condition of a match of a field against the value in a slot. An empty
/// slot is an invalid input.
pub open spec fn matched(field: Seq<char>, matching: Matching, value: ValueContainer) -> Result<
    ConditionView,
    ErrorKind,
> {
    match value.prisma_value {
        None => Err(ErrorKind::InvalidInput),
        Some(v) => Ok(ConditionView::Single(PredicateView::Match(field, matching, v.literal()))),
    }
}

/// The condition of a selection of a field among the values in the slots, or
/// outside them where `negated`. An empty slot is an invalid input. A
/// selection of the null marker alone is the test for null.
pub open spec fn selected(field: Seq<char>, negated: bool, values: Seq<ValueContainer>) -> Result<
    ConditionView,
    ErrorKind,
> {
    if !all_present(values) {
        Err(ErrorKind::InvalidInput)
    } else if values.len() == 1 && values[0].prisma_value.unwrap() is Null {
        if negated {
            Ok(ConditionView::Single(PredicateView::IsNotNull(field)))
        } else {
            Ok(ConditionView::Single(PredicateView::IsNull(field)))
        }
    } else {
        if negated {
            Ok(ConditionView::Single(PredicateView::NotIn(field, value_literals(values))))
        } else {
            Ok(ConditionView::Single(PredicateView::In(field, value_literals(values))))
        }
    }
}

impl Connective {
    /// The condition that joins `left` and `right`.
    pub open spec fn join(self, left: ConditionView, right: ConditionView) -> ConditionView {
        match self {
            Connective::And => ConditionView::And(Box::new(left), Box::new(right)),
            Connective::Or => ConditionView::Or(Box::new(left), Box::new(right)),
        }
    }
}

impl ScalarFilter {
    /// The condition of a scalar filter. A filter without a comparison is an
    /// invalid input.
    pub open spec fn translation(&self) -> Result<ConditionView, ErrorKind> {
        match self.condition {
            None => Err(ErrorKind::InvalidInput),
            Some(ScalarCondition::Equals(v)) => compared(self.field@, Comparison::Equals, v),
            Some(ScalarCondition::NotEquals(v)) => compared(self.field@, Comparison::NotEquals, v),
            Some(ScalarCondition::Contains(v)) => matched(self.field@, Matching::Like, v),
            Some(ScalarCondition::NotContains(v)) => matched(self.field@, Matching::NotLike, v),
            Some(ScalarCondition::StartsWith(v)) => matched(self.field@, Matching::BeginsWith, v),
            Some(ScalarCondition::NotStartsWith(v)) => matched(
                self.field@,
                Matching::NotBeginsWith,
                v,
            ),
            Some(ScalarCondition::EndsWith(v)) => matched(self.field@, Matching::EndsInto, v),
            Some(ScalarCondition::NotEndsWith(v)) => matched(self.field@, Matching::NotEndsInto, v),
            Some(ScalarCondition::LessThan(v)) => compared(self.field@, Comparison::LessThan, v),
            Some(ScalarCondition::LessThanOrEquals(v)) => compared(
                self.field@,
                Comparison::LessThanOrEquals,
                v,
            ),
            Some(ScalarCondition::GreaterThan(v)) => compared(
                self.field@,
                Comparison::GreaterThan,
                v,
            ),
            Some(ScalarCondition::GreaterThanOrEquals(v)) => compared(
                self.field@,
                Comparison::GreaterThanOrEquals,
                v,
            ),
            Some(ScalarCondition::In(m)) => selected(self.field@, false, m.values@),
            Some(ScalarCondition::NotIn(m)) => selected(self.field@, true, m.values@),
        }
    }
}

/// The condition of a list of filters under a connective: no condition for
/// the empty list, the filter's own condition for a list of one, and for a
/// longer list the first filter's condition joined with that of the rest.
/// Where several filters fail, the failure of the last of them is reported.
pub open spec fn combined(filters: Seq<Filter>, connective: Connective) -> Result<
    ConditionView,
    ErrorKind,
>
    decreases filters,
{
    if filters.len() == 0 {
        Ok(ConditionView::NoCondition)
    } else if filters.len() == 1 {
        filters[0].translation()
    } else {
        match combined(filters.drop_first(), connective) {
            Err(e) => Err(e),
            Ok(rest) => match filters[0].translation() {
                Err(e) => Err(e),
                Ok(first) => Ok(connective.join(first, rest)),
            },
        }
    }
}

impl Filter {
    /// The condition of a filter: what its variant says, a decode failure
    /// where it has no variant, an invalid input where the variant has no
    /// translation.
    pub open spec fn translation(&self) -> Result<ConditionView, ErrorKind>
        decreases self,
    {
        match self.type_ {
            None => Err(ErrorKind::Decode),
            Some(FilterType::And(and)) => combined(and.filters@, Connective::And),
            Some(FilterType::Or(or)) => combined(or.filters@, Connective::Or),
            Some(FilterType::Not(not)) => match combined(not.filters@, Connective::And) {
                Ok(inner) => Ok(ConditionView::Not(Box::new(inner))),
                Err(e) => Err(e),
            },
            Some(FilterType::Scalar(scalar)) => scalar.translation(),
            Some(FilterType::BoolFilter(b)) => if b {
                Ok(ConditionView::NoCondition)
            } else {
                Ok(ConditionView::NegativeCondition)
            },
            Some(FilterType::OneRelationIsNull(_)) => Err(ErrorKind::InvalidInput),
            Some(FilterType::NodeSubscription(_)) => Err(ErrorKind::InvalidInput),
        }
    }
}

/// Where the condition of a tail of the list is a failure, the condition of
/// the whole list is that failure.
proof fn lemma_failure_of_tail(filters: Seq<Filter>, connective: Connective, from: int)
    requires
        0 <= from < filters.len(),
        combined(filters.subrange(from, filters.len() as int), connective) is Err,
    ensures
        combined(filters, connective) == combined(
            filters.subrange(from, filters.len() as int),
            connective,
        ),
    decreases from,
{
    if from == 0 {
        assert(filters.subrange(0, filters.len() as int) =~= filters);
    } else {
        let longer = filters.subrange(from - 1, filters.len() as int);
        assert(longer.drop_first() =~= filters.subrange(from, filters.len() as int));
        lemma_failure_of_tail(filters, connective, from - 1);
    }
}

impl ValueContainer {
    /// Whether the slot holds the null marker.
    pub open spec fn spec_is_null_value(&self) -> bool {
        self.prisma_value matches Some(v) && v is Null
    }

    #[verifier::when_used_as_spec(spec_is_null_value)]
    pub fn is_null_value(&self) -> (r: bool)
        ensures
            r == self.spec_is_null_value(),
    {
        match &self.prisma_value {
            Some(v) => v.is_null_value(),
            None => false,
        }
    }
}

impl Connective {
    /// Joins two trees.
    pub fn join_trees(self, left: ConditionTree, right: ConditionTree) -> (r: ConditionTree)
        ensures
            r@ == self.join(left@, right@),
    {
        match self {
            Connective::And => ConditionTree::and(left, right),
            Connective::Or => ConditionTree::or(left, right),
        }
    }
}

fn missing_value() -> (e: Error)
    ensures
        e.kind() == ErrorKind::InvalidInput,
        e.spec_message() == "A scalar condition needs a value."@,
{
    Error::InvalidInput(String::from_str("A scalar condition needs a value."))
}

/// Translates the comparison of a field with the value in a slot.
pub fn compare(field: String, comparison: Comparison, value: ValueContainer) -> (r: Result<
    ConditionTree,
    Error,
>)
    ensures
        outcome(r) == compared(field@, comparison, value),
{
    match value.prisma_value {
        None => Err(missing_value()),
        Some(v) => {
            let predicate = match (v.is_null_value(), comparison) {
                (true, Comparison::Equals) => Predicate::IsNull(field),
                (true, Comparison::NotEquals) => Predicate::IsNotNull(field),
                _ => Predicate::Compare(field, comparison, v.to_database_value()),
            };
            Ok(ConditionTree::single(predicate))
        },
    }
}

/// Translates the match of a field against the value in a slot.
pub fn match_pattern(field: String, matching: Matching, value: ValueContainer) -> (r: Result<
    ConditionTree,
    Error,
>)
    ensures
        outcome(r) == matched(field@, matching, value),
{
    match value.prisma_value {
        None => Err(missing_value()),
        Some(v) => Ok(
            ConditionTree::single(Predicate::Match(field, matching, v.to_database_value())),
        ),
    }
}

/// Coerces the values in the slots, in their order, unless a slot is empty.
fn coerce_all(values: Vec<ValueContainer>) -> (r: Option<Vec<DatabaseValue>>)
    ensures
        r is Some <==> all_present(values@),
        r matches Some(coerced) ==> literals(coerced@) == value_literals(values@),
{
    let mut coerced: Vec<DatabaseValue> = Vec::new();
    for slot in it: values
        invariant
            it.seq() == values@,
            coerced.len() == it.index(),
            forall|j: int|
                0 <= j < it.index() ==> (#[trigger] values[j]).prisma_value is Some && coerced[j]@
                    == values[j].prisma_value.unwrap().literal(),
    {
        match slot.prisma_value {
            None => {
                return None;
            },
            Some(v) => {
                coerced.push(v.to_database_value());
            },
        }
    }
    Some(coerced)
}

/// Translates the selection of a field among the values in the slots, or
/// outside them where `negated`.
pub fn select(field: String, negated: bool, values: Vec<ValueContainer>) -> (r: Result<
    ConditionTree,
    Error,
>)
    ensures
        outcome(r) == selected(field@, negated, values@),
{
    let only_null = values.len() == 1 && values[0].is_null_value();
    match coerce_all(values) {
        None => Err(missing_value()),
        Some(coerced) => {
            let predicate = if only_null {
                if negated {
                    Predicate::IsNotNull(field)
                } else {
                    Predicate::IsNull(field)
                }
            } else {
                if negated {
                    Predicate::NotIn(field, coerced)
                } else {
                    Predicate::In(field, coerced)
                }
            };
            Ok(ConditionTree::single(predicate))
        },
    }
}

impl ScalarFilter {
    /// Translates the filter into a tree of one predicate.
    pub fn translate(self) -> (r: Result<ConditionTree, Error>)
        ensures
            outcome(r) == self.translation(),
    {
        let field = self.field;
        match self.condition {
            None => Err(
                Error::InvalidInput(String::from_str("A scalar filter needs a condition.")),
            ),
            Some(ScalarCondition::Equals(v)) => compare(field, Comparison::Equals, v),
            Some(ScalarCondition::NotEquals(v)) => compare(field, Comparison::NotEquals, v),
            Some(ScalarCondition::Contains(v)) => match_pattern(field, Matching::Like, v),
            Some(ScalarCondition::NotContains(v)) => match_pattern(field, Matching::NotLike, v),
            Some(ScalarCondition::StartsWith(v)) => match_pattern(field, Matching::BeginsWith, v),
            Some(ScalarCondition::NotStartsWith(v)) => match_pattern(
                field,
                Matching::NotBeginsWith,
                v,
            ),
            Some(ScalarCondition::EndsWith(v)) => match_pattern(field, Matching::EndsInto, v),
            Some(ScalarCondition::NotEndsWith(v)) => match_pattern(field, Matching::NotEndsInto, v),
            Some(ScalarCondition::LessThan(v)) => compare(field, Comparison::LessThan, v),
            Some(ScalarCondition::LessThanOrEquals(v)) => compare(
                field,
                Comparison::LessThanOrEquals,
                v,
            ),
            Some(ScalarCondition::GreaterThan(v)) => compare(field, Comparison::GreaterThan, v),
            Some(ScalarCondition::GreaterThanOrEquals(v)) => compare(
                field,
                Comparison::GreaterThanOrEquals,
                v,
            ),
            Some(ScalarCondition::In(m)) => select(field, false, m.values),
            Some(ScalarCondition::NotIn(m)) => select(field, true, m.values),
        }
    }
}

/// Translates a list of filters and joins their conditions: the last filter
/// first, then each filter before it as the left operand of a new node around
/// what has been built.
pub fn combine(filters: Vec<Filter>, connective: Connective) -> (r: Result<ConditionTree, Error>)
    ensures
        outcome(r) == combined(filters@, connective),
    decreases filters,
{
    let ghost all = filters@;
    let mut rest = filters;
    match rest.pop() {
        None => Ok(ConditionTree::NoCondition),
        Some(last) => {
            match last.translate() {
                Err(e) => {
                    proof {
                        lemma_failure_of_tail(all, connective, all.len() - 1);
                    }
                    Err(e)
                },
                Ok(innermost) => {
                    let mut tree = innermost;
                    loop
                        invariant
                            filters@ == all,
                            rest.len() < all.len(),
                            rest@ == all.subrange(0, rest.len() as int),
                            combined(all.subrange(rest.len() as int, all.len() as int), connective)
                                == Ok::<ConditionView, ErrorKind>(tree@),
                        ensures
                            combined(all, connective) == Ok::<ConditionView, ErrorKind>(tree@),
                        decreases rest.len(),
                    {
                        let ghost built = all.subrange(rest.len() as int, all.len() as int);
                        match rest.pop() {
                            None => {
                                assert(built =~= all);
                                break ;
                            },
                            Some(filter) => {
                                let ghost longer = all.subrange(
                                    rest.len() as int,
                                    all.len() as int,
                                );
                                assert(longer.drop_first() =~= built);
                                match filter.translate() {
                                    Err(e) => {
                                        proof {
                                            lemma_failure_of_tail(
                                                all,
                                                connective,
                                                rest.len() as int,
                                            );
                                        }
                                        return Err(e);
                                    },
                                    Ok(left) => {
                                        tree = connective.join_trees(left, tree);
                                    },
                                }
                            },
                        }
                    }
                    Ok(tree)
                },
            }
        },
    }
}

impl AndFilter {
    /// Translates the conjunction of the filters.
    pub fn translate(self) -> (r: Result<ConditionTree, Error>)
        ensures
            outcome(r) == combined(self.filters@, Connective::And),
        decreases self,
    {
        combine(self.filters, Connective::And)
    }
}

impl OrFilter {
    /// Translates the disjunction of the filters.
    pub fn translate(self) -> (r: Result<ConditionTree, Error>)
        ensures
            outcome(r) == combined(self.filters@, Connective::Or),
        decreases self,
    {
        combine(self.filters, Connective::Or)
    }
}

impl NotFilter {
    /// The condition of the negation of the conjunction of the filters.
    pub open spec fn translation(&self) -> Result<ConditionView, ErrorKind> {
        match combined(self.filters@, Connective::And) {
            Ok(inner) => Ok(ConditionView::Not(Box::new(inner))),
            Err(e) => Err(e),
        }
    }

    /// Translates the filters as a conjunction and negates the whole.
    pub fn translate(self) -> (r: Result<ConditionTree, Error>)
        ensures
            outcome(r) == self.translation(),
        decreases self,
    {
        match combine(self.filters, Connective::And) {
            Ok(inner) => Ok(ConditionTree::not(inner)),
            Err(e) => Err(e),
        }
    }
}

impl Filter {
    /// Translates the filter into a condition tree.
    pub fn translate(self) -> (r: Result<ConditionTree, Error>)
        ensures
            outcome(r) == self.translation(),
        decreases self,
    {
        match self.type_ {
            None => Err(Error::DecodeError(String::from_str("A filter needs a variant."))),
            Some(FilterType::And(and)) => and.translate(),
            Some(FilterType::Or(or)) => or.translate(),
            Some(FilterType::Not(not)) => not.translate(),
            Some(FilterType::Scalar(scalar)) => scalar.translate(),
            Some(FilterType::BoolFilter(b)) => {
                if b {
                    Ok(ConditionTree::NoCondition)
                } else {
                    Ok(ConditionTree::NegativeCondition)
                }
            },
            Some(FilterType::OneRelationIsNull(_)) => Err(
                Error::InvalidInput(
                    String::from_str("Filters on relations are not supported at this point."),
                ),
            ),
            Some(FilterType::NodeSubscription(_)) => Err(
                Error::InvalidInput(
                    String::from_str("Filters on subscriptions are not supported at this point."),
                ),
            ),
        }
    }
}

impl Connective {
    /// The word between the two sides of a joined condition.
    pub open spec fn word(self) -> Seq<char> {
        match self {
            Connective::And => " AND "@,
            Connective::Or => " OR "@,
        }
    }
}

/// The text that an outcome compiles to.
pub open spec fn compiled(outcome: Result<ConditionView, ErrorKind>) -> Result<
    Seq<char>,
    ErrorKind,
> {
    match outcome {
        Ok(condition) => Ok(condition.sql()),
        Err(e) => Err(e),
    }
}

/// The texts that the filters compile to, where each of them translates.
pub open spec fn compiled_each(filters: Seq<Filter>) -> Seq<Seq<char>> {
    Seq::new(filters.len(), |i: int| filters[i].translation().unwrap().sql())
}

/// The texts in their order, nested to the right: the first text, the word,
/// and the nesting of the rest, in parentheses; a single text as it is; and
/// for no text at all the condition that always holds.
pub open spec fn nested(texts: Seq<Seq<char>>, word: Seq<char>) -> Seq<char>
    decreases texts.len(),
{
    if texts.len() == 0 {
        "1=1"@
    } else if texts.len() == 1 {
        texts[0]
    } else {
        "("@ + texts[0] + word + nested(texts.drop_first(), word) + ")"@
    }
}

/// A literal filter compiles to a constant: `true` to the condition that
/// always holds, `false` to the one that never does.
pub proof fn literal_compiles_to_constant(filter: Filter, literal: bool)
    requires
        filter.type_ == Some(FilterType::BoolFilter(literal)),
    ensures
        literal ==> filter.translation() == Ok::<ConditionView, ErrorKind>(
            ConditionView::NoCondition,
        ),
        !literal ==> filter.translation() == Ok::<ConditionView, ErrorKind>(
            ConditionView::NegativeCondition,
        ),
        compiled(filter.translation()) == Ok::<Seq<char>, ErrorKind>(
            if literal {
                "1=1"@
            } else {
                "1=0"@
            },
        ),
{
}

/// Equality with the null marker compiles to the test for null, and
/// inequality with it to the test for a value, whatever the field.
pub proof fn null_comparison_compiles_to_null_test(filter: ScalarFilter, negated: bool)
    requires
        !negated ==> filter.condition == Some(
            ScalarCondition::Equals(ValueContainer { prisma_value: Some(PrismaValue::Null) }),
        ),
        negated ==> filter.condition == Some(
            ScalarCondition::NotEquals(ValueContainer { prisma_value: Some(PrismaValue::Null) }),
        ),
    ensures
        !negated ==> filter.translation() == Ok::<ConditionView, ErrorKind>(
            ConditionView::Single(PredicateView::IsNull(filter.field@)),
        ),
        negated ==> filter.translation() == Ok::<ConditionView, ErrorKind>(
            ConditionView::Single(PredicateView::IsNotNull(filter.field@)),
        ),
        compiled(filter.translation()) == Ok::<Seq<char>, ErrorKind>(
            if negated {
                filter.field@ + " IS NOT NULL"@
            } else {
                filter.field@ + " IS NULL"@
            },
        ),
{
}

/// A list of filters that all translate compiles to the texts of its
/// filters in their order, nested to the right.
pub proof fn list_nests_to_the_right(filters: Seq<Filter>, connective: Connective)
    requires
        forall|i: int| 0 <= i < filters.len() ==> (#[trigger] filters[i]).translation() is Ok,
    ensures
        compiled(combined(filters, connective)) == Ok::<Seq<char>, ErrorKind>(
            nested(compiled_each(filters), connective.word()),
        ),
    decreases filters.len(),
{
    if filters.len() >= 2 {
        let rest = filters.drop_first();
        list_nests_to_the_right(rest, connective);
        assert(compiled_each(filters).drop_first() =~= compiled_each(rest));
    }
}

/// A conjunction of three filters that all translate compiles to
/// `(A AND (B AND C))`.
pub proof fn conjunction_of_three(a: Filter, b: Filter, c: Filter)
    requires
        a.translation() is Ok,
        b.translation() is Ok,
        c.translation() is Ok,
    ensures
        compiled(combined(seq![a, b, c], Connective::And)) == Ok::<Seq<char>, ErrorKind>(
            "("@ + a.translation().unwrap().sql() + " AND "@ + ("("@
                + b.translation().unwrap().sql() + " AND "@ + c.translation().unwrap().sql()
                + ")"@) + ")"@,
        ),
{
    let all = seq![a, b, c];
    list_nests_to_the_right(all, Connective::And);
    let texts = compiled_each(all);
    assert(nested(texts.drop_first().drop_first(), " AND "@) == texts[2]);
    assert(nested(texts.drop_first(), " AND "@) == "("@ + texts[1] + " AND "@ + texts[2] + ")"@);
}

/// A conjunction or a disjunction of exactly one filter translates as that
/// filter does, with no node around it.
pub proof fn list_of_one_translates_as_its_filter(list: Filter, only: Filter)
    requires
        ({
            ||| list.type_ matches Some(FilterType::And(and)) && and.filters@ == seq![only]
            ||| list.type_ matches Some(FilterType::Or(or)) && or.filters@ == seq![only]
        }),
    ensures
        list.translation() == only.translation(),
        compiled(list.translation()) == compiled(only.translation()),
{
}

/// A negation translates to the negation of the conjunction of its filters,
/// and compiles to that conjunction behind `NOT`, in parentheses.
pub proof fn negation_wraps_conjunction(negation: Filter, filters: Seq<Filter>)
    requires
        negation.type_ matches Some(FilterType::Not(not)) && not.filters@ == filters,
    ensures
        negation.translation() == match combined(filters, Connective::And) {
            Ok(inner) => Ok::<ConditionView, ErrorKind>(ConditionView::Not(Box::new(inner))),
            Err(e) => Err(e),
        },
        compiled(negation.translation()) == match compiled(combined(filters, Connective::And)) {
            Ok(inner) => Ok::<Seq<char>, ErrorKind>("(NOT "@ + inner + ")"@),
            Err(e) => Err(e),
        },
{
}

/// The negation of two filters that both translate compiles to
/// `(NOT (A AND B))`.
pub proof fn negation_of_two(negation: Filter, a: Filter, b: Filter)
    requires
        negation.type_ matches Some(FilterType::Not(not)) && not.filters@ == seq![a, b],
        a.translation() is Ok,
        b.translation() is Ok,
    ensures
        compiled(negation.translation()) == Ok::<Seq<char>, ErrorKind>(
            "(NOT "@ + ("("@ + a.translation().unwrap().sql() + " AND "@
                + b.translation().unwrap().sql() + ")"@) + ")"@,
        ),
{
    let both = seq![a, b];
    list_nests_to_the_right(both, Connective::And);
    let texts = compiled_each(both);
    assert(nested(texts.drop_first(), " AND "@) == texts[1]);
    negation_wraps_conjunction(negation, both);
}

/// The slots that hold the values, in their order.
pub open spec fn slots(values: Seq<PrismaValue>) -> Seq<ValueContainer> {
    Seq::new(values.len(), |i: int| ValueContainer { prisma_value: Some(values[i]) })
}

impl ValueContainer {
    /// A slot that holds `value`.
    pub fn of(value: PrismaValue) -> (r: ValueContainer)
        ensures
            r == (ValueContainer { prisma_value: Some(value) }),
    {
        ValueContainer { prisma_value: Some(value) }
    }
}

impl MultiContainer {
    /// The slots that hold the values, in their order.
    pub fn of(values: Vec<PrismaValue>) -> (r: MultiContainer)
        ensures
            r.values@ == slots(values@),
    {
        let mut filled: Vec<ValueContainer> = Vec::new();
        for value in it: values
            invariant
                it.seq() == values@,
                filled.len() == it.index(),
                forall|j: int|
                    0 <= j < it.index() ==> #[trigger] filled[j] == (ValueContainer {
                        prisma_value: Some(values[j]),
                    }),
        {
            filled.push(ValueContainer::of(value));
        }
        MultiContainer { values: filled }
    }
}

impl Filter {
    /// Whether this is the scalar filter of `condition` on the field `field`.
    pub open spec fn is_scalar(&self, field: Seq<char>, condition: ScalarCondition) -> bool {
        &&& self.type_ matches Some(FilterType::Scalar(scalar))
        &&& scalar.field@ == field
        &&& scalar.condition == Some(condition)
    }

    /// Whether this is the scalar filter on the field `field` that selects
    /// the fields among `values`, or outside them where `negated`.
    pub open spec fn is_selection(
        &self,
        field: Seq<char>,
        negated: bool,
        values: Seq<PrismaValue>,
    ) -> bool {
        &&& self.type_ matches Some(FilterType::Scalar(scalar))
        &&& scalar.field@ == field
        &&& scalar.condition matches Some(condition)
        &&& if negated {
            condition matches ScalarCondition::NotIn(among) && among.values@ == slots(values)
        } else {
            condition matches ScalarCondition::In(among) && among.values@ == slots(values)
        }
    }

    /// The literal filter: `true` holds of everything, `false` of nothing.
    pub fn bool_filter(condition: bool) -> (r: Filter)
        ensures
            r.type_ == Some(FilterType::BoolFilter(condition)),
    {
        Filter { type_: Some(FilterType::BoolFilter(condition)) }
    }

    /// The scalar filter of `condition` on the field `field`.
    pub fn scalar(field: &str, condition: ScalarCondition) -> (r: Filter)
        ensures
            r.is_scalar(field@, condition),
    {
        Filter {
            type_: Some(
                FilterType::Scalar(
                    ScalarFilter { field: String::from_str(field), condition: Some(condition) },
                ),
            ),
        }
    }

    /// The filter that holds of the fields that equal `value`.
    pub fn equals(field: &str, value: PrismaValue) -> (r: Filter)
        ensures
            r.is_scalar(
                field@,
                ScalarCondition::Equals(ValueContainer { prisma_value: Some(value) }),
            ),
    {
        Self::scalar(field, ScalarCondition::Equals(ValueContainer::of(value)))
    }

    /// The filter that holds of the fields that differ from `value`.
    pub fn not_equals(field: &str, value: PrismaValue) -> (r: Filter)
        ensures
            r.is_scalar(
                field@,
                ScalarCondition::NotEquals(ValueContainer { prisma_value: Some(value) }),
            ),
    {
        Self::scalar(field, ScalarCondition::NotEquals(ValueContainer::of(value)))
    }

    /// The filter that holds of the fields below `value`.
    pub fn less_than(field: &str, value: PrismaValue) -> (r: Filter)
        ensures
            r.is_scalar(
                field@,
                ScalarCondition::LessThan(ValueContainer { prisma_value: Some(value) }),
            ),
    {
        Self::scalar(field, ScalarCondition::LessThan(ValueContainer::of(value)))
    }

    /// The filter that holds of the fields that do not exceed `value`.
    pub fn less_than_or_equals(field: &str, value: PrismaValue) -> (r: Filter)
        ensures
            r.is_scalar(
                field@,
                ScalarCondition::LessThanOrEquals(ValueContainer { prisma_value: Some(value) }),
            ),
    {
        Self::scalar(field, ScalarCondition::LessThanOrEquals(ValueContainer::of(value)))
    }

    /// The filter that holds of the fields above `value`.
    pub fn greater_than(field: &str, value: PrismaValue) -> (r: Filter)
        ensures
            r.is_scalar(
                field@,
                ScalarCondition::GreaterThan(ValueContainer { prisma_value: Some(value) }),
            ),
    {
        Self::scalar(field, ScalarCondition::GreaterThan(ValueContainer::of(value)))
    }

    /// The filter that holds of the fields that are not below `value`.
    pub fn greater_than_or_equals(field: &str, value: PrismaValue) -> (r: Filter)
        ensures
            r.is_scalar(
                field@,
                ScalarCondition::GreaterThanOrEquals(ValueContainer { prisma_value: Some(value) }),
            ),
    {
        Self::scalar(field, ScalarCondition::GreaterThanOrEquals(ValueContainer::of(value)))
    }

    /// The filter that holds of the fields that contain `value`.
    pub fn contains(field: &str, value: PrismaValue) -> (r: Filter)
        ensures
            r.is_scalar(
                field@,
                ScalarCondition::Contains(ValueContainer { prisma_value: Some(value) }),
            ),
    {
        Self::scalar(field, ScalarCondition::Contains(ValueContainer::of(value)))
    }

    /// The filter that holds of the fields that do not contain `value`.
    pub fn not_contains(field: &str, value: PrismaValue) -> (r: Filter)
        ensures
            r.is_scalar(
                field@,
                ScalarCondition::NotContains(ValueContainer { prisma_value: Some(value) }),
            ),
    {
        Self::scalar(field, ScalarCondition::NotContains(ValueContainer::of(value)))
    }

    /// The filter that holds of the fields that start with `value`.
    pub fn starts_with(field: &str, value: PrismaValue) -> (r: Filter)
        ensures
            r.is_scalar(
                field@,
                ScalarCondition::StartsWith(ValueContainer { prisma_value: Some(value) }),
            ),
    {
        Self::scalar(field, ScalarCondition::StartsWith(ValueContainer::of(value)))
    }

    /// The filter that holds of the fields that do not start with `value`.
    pub fn not_starts_with(field: &str, value: PrismaValue) -> (r: Filter)
        ensures
            r.is_scalar(
                field@,
                ScalarCondition::NotStartsWith(ValueContainer { prisma_value: Some(value) }),
            ),
    {
        Self::scalar(field, ScalarCondition::NotStartsWith(ValueContainer::of(value)))
    }

    /// The filter that holds of the fields that end with `value`.
    pub fn ends_with(field: &str, value: PrismaValue) -> (r: Filter)
        ensures
            r.is_scalar(
                field@,
                ScalarCondition::EndsWith(ValueContainer { prisma_value: Some(value) }),
            ),
    {
        Self::scalar(field, ScalarCondition::EndsWith(ValueContainer::of(value)))
    }

    /// The filter that holds of the fields that do not end with `value`.
    pub fn not_ends_with(field: &str, value: PrismaValue) -> (r: Filter)
        ensures
            r.is_scalar(
                field@,
                ScalarCondition::NotEndsWith(ValueContainer { prisma_value: Some(value) }),
            ),
    {
        Self::scalar(field, ScalarCondition::NotEndsWith(ValueContainer::of(value)))
    }

    /// The filter that holds of the fields that are among the values of
    /// `selection`.
    pub fn in_selection(field: &str, selection: Vec<PrismaValue>) -> (r: Filter)
        ensures
            r.is_selection(field@, false, selection@),
    {
        Self::scalar(field, ScalarCondition::In(MultiContainer::of(selection)))
    }

    /// The filter that holds of the fields that are not among the values of
    /// `selection`.
    pub fn not_in_selection(field: &str, selection: Vec<PrismaValue>) -> (r: Filter)
        ensures
            r.is_selection(field@, true, selection@),
    {
        Self::scalar(field, ScalarCondition::NotIn(MultiContainer::of(selection)))
    }

    /// The filter that holds where all of `filters` hold.
    pub fn and(filters: Vec<Filter>) -> (r: Filter)
        ensures
            r.type_ == Some(FilterType::And(AndFilter { filters })),
    {
        Filter { type_: Some(FilterType::And(AndFilter { filters })) }
    }

    /// The filter that holds where one of `filters` holds.
    pub fn or(filters: Vec<Filter>) -> (r: Filter)
        ensures
            r.type_ == Some(FilterType::Or(OrFilter { filters })),
    {
        Filter { type_: Some(FilterType::Or(OrFilter { filters })) }
    }

    /// The filter that holds where not all of `filters` hold.
    pub fn not(filters: Vec<Filter>) -> (r: Filter)
        ensures
            r.type_ == Some(FilterType::Not(NotFilter { filters })),
    {
        Filter { type_: Some(FilterType::Not(NotFilter { filters })) }
    }
}

} // verus!
