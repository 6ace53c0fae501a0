//! The backend-neutral condition tree and its rendering as the text of a
//! `WHERE` clause.

use crate::value::{DatabaseValue, Literal};
use vstd::prelude::*;

verus! {

/// A comparison of a field with one value.
#[derive(Clone, Copy, Debug, PartialEq, Eq, Structural)]
pub enum Comparison {
    Equals,
    NotEquals,
    LessThan,
    LessThanOrEquals,
    GreaterThan,
    GreaterThanOrEquals,
}

/// A match of a field against a pattern made of one value.
#[derive(Clone, Copy, Debug, PartialEq, Eq, Structural)]
pub enum Matching {
    Like,
    NotLike,
    BeginsWith,
    NotBeginsWith,
    EndsInto,
    NotEndsInto,
}

/// A leaf of a condition tree: one test on one field.
#[derive(Debug, PartialEq, Eq)]
pub enum Predicate {
    Compare(String, Comparison, DatabaseValue),
    Match(String, Matching, DatabaseValue),
    In(String, Vec<DatabaseValue>),
    NotIn(String, Vec<DatabaseValue>),
    IsNull(String),
    IsNotNull(String),
}

/// A boolean expression over predicates.
#[derive(Debug, PartialEq, Eq)]
pub enum ConditionTree {
    /// Always true.
    NoCondition,
    /// Always false.
    NegativeCondition,
    Single(Box<Predicate>),
    And(Box<ConditionTree>, Box<ConditionTree>),
    Or(Box<ConditionTree>, Box<ConditionTree>),
    Not(Box<ConditionTree>),
}

/// The mathematical value of a predicate.
pub enum PredicateView {
    Compare(Seq<char>, Comparison, Literal),
    Match(Seq<char>, Matching, Literal),
    In(Seq<char>, Seq<Literal>),
    NotIn(Seq<char>, Seq<Literal>),
    IsNull(Seq<char>),
    IsNotNull(Seq<char>),
}

/// The mathematical value of a condition tree.
pub enum ConditionView {
    NoCondition,
    NegativeCondition,
    Single(PredicateView),
    And(Box<ConditionView>, Box<ConditionView>),
    Or(Box<ConditionView>, Box<ConditionView>),
    Not(Box<ConditionView>),
}

/// The literals of a list of database values.
pub open spec fn literals(values: Seq<DatabaseValue>) -> Seq<Literal> {
    Seq::new(values.len(), |i: int| values[i]@)
}

/// The texts of the literals, separated by a comma and a space.
pub open spec fn joined(items: Seq<Literal>) -> Seq<char>
    decreases items.len(),
{
    if items.len() == 0 {
        Seq::empty()
    } else if items.len() == 1 {
        items[0].text()
    } else {
        joined(items.drop_last()) + ", "@ + items.last().text()
    }
}

/// The text of a `LIKE` test of a field against a pattern.
pub open spec fn like_text(field: Seq<char>, pattern: Seq<char>) -> Seq<char> {
    field + " LIKE '"@ + pattern + "'"@
}

/// The text of a `NOT LIKE` test of a field against a pattern.
pub open spec fn not_like_text(field: Seq<char>, pattern: Seq<char>) -> Seq<char> {
    field + " NOT LIKE '"@ + pattern + "'"@
}

impl Comparison {
    /// The operator between the field and the value.
    pub open spec fn symbol(self) -> Seq<char> {
        match self {
            Comparison::Equals => " = "@,
            Comparison::NotEquals => " <> "@,
            Comparison::LessThan => " < "@,
            Comparison::LessThanOrEquals => " <= "@,
            Comparison::GreaterThan => " > "@,
            Comparison::GreaterThanOrEquals => " >= "@,
        }
    }
}

impl Matching {
    /// Whether the test holds of the fields that do not match.
    pub open spec fn negated(self) -> bool {
        self is NotLike || self is NotBeginsWith || self is NotEndsInto
    }

    /// The pattern that the value stands for: anything may precede it unless
    /// the field has to begin with it, anything may follow it unless the field
    /// has to end with it.
    pub open spec fn pattern(self, value: Seq<char>) -> Seq<char> {
        match self {
            Matching::Like | Matching::NotLike => "%"@ + value + "%"@,
            Matching::BeginsWith | Matching::NotBeginsWith => value + "%"@,
            Matching::EndsInto | Matching::NotEndsInto => "%"@ + value,
        }
    }

    pub fn is_negated(&self) -> (r: bool)
        ensures
            r == self.negated(),
    {
        match self {
            Matching::NotLike | Matching::NotBeginsWith | Matching::NotEndsInto => true,
            _ => false,
        }
    }

    /// The pattern that `value` stands for.
    pub fn pattern_of(&self, value: &DatabaseValue) -> (r: String)
        ensures
            r@ == self.pattern(value@.bare()),
    {
        let mut out = String::new();
        match self {
            Matching::Like | Matching::NotLike => {
                out.append("%");
                value.push_bare(&mut out);
                out.append("%");
            },
            Matching::BeginsWith | Matching::NotBeginsWith => {
                value.push_bare(&mut out);
                out.append("%");
            },
            Matching::EndsInto | Matching::NotEndsInto => {
                out.append("%");
                value.push_bare(&mut out);
            },
        }
        out
    }
}

impl PredicateView {
    /// The text of the predicate.
    pub open spec fn sql(self) -> Seq<char> {
        match self {
            PredicateView::Compare(field, comparison, value) => field + comparison.symbol()
                + value.text(),
            PredicateView::Match(field, matching, value) => if matching.negated() {
                not_like_text(field, matching.pattern(value.bare()))
            } else {
                like_text(field, matching.pattern(value.bare()))
            },
            PredicateView::In(field, values) => field + " IN ("@ + joined(values) + ")"@,
            PredicateView::NotIn(field, values) => field + " NOT IN ("@ + joined(values) + ")"@,
            PredicateView::IsNull(field) => field + " IS NULL"@,
            PredicateView::IsNotNull(field) => field + " IS NOT NULL"@,
        }
    }
}

impl ConditionView {
    /// The text of the condition: the two constants as `1=1` and `1=0`, a
    /// predicate as it is, every combination in parentheses.
    pub open spec fn sql(self) -> Seq<char>
        decreases self,
    {
        match self {
            ConditionView::NoCondition => "1=1"@,
            ConditionView::NegativeCondition => "1=0"@,
            ConditionView::Single(predicate) => predicate.sql(),
            ConditionView::And(left, right) => "("@ + left.sql() + " AND "@ + right.sql() + ")"@,
            ConditionView::Or(left, right) => "("@ + left.sql() + " OR "@ + right.sql() + ")"@,
            ConditionView::Not(inner) => "(NOT "@ + inner.sql() + ")"@,
        }
    }
}

impl View for Predicate {
    type V = PredicateView;

    open spec fn view(&self) -> PredicateView {
        match self {
            Predicate::Compare(field, comparison, value) => PredicateView::Compare(
                field@,
                *comparison,
                value@,
            ),
            Predicate::Match(field, matching, value) => PredicateView::Match(
                field@,
                *matching,
                value@,
            ),
            Predicate::In(field, values) => PredicateView::In(field@, literals(values@)),
            Predicate::NotIn(field, values) => PredicateView::NotIn(field@, literals(values@)),
            Predicate::IsNull(field) => PredicateView::IsNull(field@),
            Predicate::IsNotNull(field) => PredicateView::IsNotNull(field@),
        }
    }
}

impl ConditionTree {
    /// The mathematical value of the tree.
    pub open spec fn model(&self) -> ConditionView
        decreases self,
    {
        match self {
            ConditionTree::NoCondition => ConditionView::NoCondition,
            ConditionTree::NegativeCondition => ConditionView::NegativeCondition,
            ConditionTree::Single(predicate) => ConditionView::Single(predicate@),
            ConditionTree::And(left, right) => ConditionView::And(
                Box::new(left.model()),
                Box::new(right.model()),
            ),
            ConditionTree::Or(left, right) => ConditionView::Or(
                Box::new(left.model()),
                Box::new(right.model()),
            ),
            ConditionTree::Not(inner) => ConditionView::Not(Box::new(inner.model())),
        }
    }
}

impl View for ConditionTree {
    type V = ConditionView;

    open spec fn view(&self) -> ConditionView {
        self.model()
    }
}

/// Renders a `LIKE` test with `sql::prelude::Likable::like` on the field's
/// name and `sql::grammar::Operation::compile` on the operation it returns.
/// For a field given by its name the operation always compiles: to the name,
/// the keyword, and the pattern between single quotes, exactly as handed in.
#[verifier::external_body]
fn like_operation(field: &str, pattern: &str) -> (r: Option<String>)
    ensures
        r is Some,
        r.unwrap()@ == like_text(field@, pattern@),
{
    sql::grammar::Operation::compile(&sql::prelude::Likable::like(field, pattern)).ok()
}

impl Comparison {
    /// Appends the operator to `out`.
    pub fn push_symbol(&self, out: &mut String)
        ensures
            final(out)@ == old(out)@ + self.symbol(),
    {
        match self {
            Comparison::Equals => out.append(" = "),
            Comparison::NotEquals => out.append(" <> "),
            Comparison::LessThan => out.append(" < "),
            Comparison::LessThanOrEquals => out.append(" <= "),
            Comparison::GreaterThan => out.append(" > "),
            Comparison::GreaterThanOrEquals => out.append(" >= "),
        }
    }
}

/// Appends the texts of the values, separated by a comma and a space.
fn push_joined(out: &mut String, values: &Vec<DatabaseValue>)
    ensures
        final(out)@ == old(out)@ + joined(literals(values@)),
{
    let ghost items = literals(values@);
    let mut i: usize = 0;
    while i < values.len()
        invariant
            i <= values.len(),
            items == literals(values@),
            out@ == old(out)@ + joined(items.subrange(0, i as int)),
        decreases values.len() - i,
    {
        assert(items.subrange(0, i + 1).drop_last() =~= items.subrange(0, i as int));
        if i > 0 {
            out.append(", ");
        }
        values[i].push_text(out);
        i = i + 1;
    }
    assert(items.subrange(0, values.len() as int) =~= items);
}

impl Predicate {
    /// Appends the text of the predicate to `out`.
    pub fn push_sql(&self, out: &mut String)
        ensures
            final(out)@ == old(out)@ + self@.sql(),
    {
        match self {
            Predicate::Compare(field, comparison, value) => {
                out.append(field.as_str());
                comparison.push_symbol(out);
                value.push_text(out);
            },
            Predicate::Match(field, matching, value) => {
                let pattern = matching.pattern_of(value);
                if matching.is_negated() {
                    out.append(field.as_str());
                    out.append(" NOT LIKE '");
                    out.append(pattern.as_str());
                    out.append("'");
                } else {
                    let rendered = like_operation(field.as_str(), pattern.as_str());
                    out.append(rendered.unwrap().as_str());
                }
            },
            Predicate::In(field, values) => {
                out.append(field.as_str());
                out.append(" IN (");
                push_joined(out, values);
                out.append(")");
            },
            Predicate::NotIn(field, values) => {
                out.append(field.as_str());
                out.append(" NOT IN (");
                push_joined(out, values);
                out.append(")");
            },
            Predicate::IsNull(field) => {
                out.append(field.as_str());
                out.append(" IS NULL");
            },
            Predicate::IsNotNull(field) => {
                out.append(field.as_str());
                out.append(" IS NOT NULL");
            },
        }
    }
}

impl ConditionTree {
    /// A tree of one predicate.
    pub fn single(predicate: Predicate) -> (r: ConditionTree)
        ensures
            r@ == ConditionView::Single(predicate@),
    {
        ConditionTree::Single(Box::new(predicate))
    }

    /// The conjunction of two trees.
    pub fn and(left: ConditionTree, right: ConditionTree) -> (r: ConditionTree)
        ensures
            r@ == ConditionView::And(Box::new(left@), Box::new(right@)),
    {
        ConditionTree::And(Box::new(left), Box::new(right))
    }

    /// The disjunction of two trees.
    pub fn or(left: ConditionTree, right: ConditionTree) -> (r: ConditionTree)
        ensures
            r@ == ConditionView::Or(Box::new(left@), Box::new(right@)),
    {
        ConditionTree::Or(Box::new(left), Box::new(right))
    }

    /// The negation of a tree.
    pub fn not(inner: ConditionTree) -> (r: ConditionTree)
        ensures
            r@ == ConditionView::Not(Box::new(inner@)),
    {
        ConditionTree::Not(Box::new(inner))
    }

    /// Appends the text of the condition to `out`.
    pub fn push_sql(&self, out: &mut String)
        ensures
            final(out)@ == old(out)@ + self@.sql(),
        decreases self,
    {
        match self {
            ConditionTree::NoCondition => out.append("1=1"),
            ConditionTree::NegativeCondition => out.append("1=0"),
            ConditionTree::Single(predicate) => predicate.push_sql(out),
            ConditionTree::And(left, right) => {
                out.append("(");
                left.push_sql(out);
                out.append(" AND ");
                right.push_sql(out);
                out.append(")");
            },
            ConditionTree::Or(left, right) => {
                out.append("(");
                left.push_sql(out);
                out.append(" OR ");
                right.push_sql(out);
                out.append(")");
            },
            ConditionTree::Not(inner) => {
                out.append("(NOT ");
                inner.push_sql(out);
                out.append(")");
            },
        }
    }

    /// The text of the condition, as it stands behind `WHERE`.
    pub fn compile(&self) -> (r: String)
        ensures
            r@ == self@.sql(),
    {
        let mut out = String::new();
        self.push_sql(&mut out);
        out
    }
}

} // verus!
