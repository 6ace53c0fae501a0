//! Scalar values as they arrive in a request, the database literals they are
//! coerced to, and the text of each literal.

use crate::text::{
    check_number, decimal, escaped, is_number, push_decimal, push_escaped, push_quoted, quoted,
};
use vstd::prelude::*;

verus! {

/// An identifier that is either a string or an integer.
#[derive(Debug, PartialEq, Eq)]
pub enum GraphqlId {
    String(String),
    Int(i64),
}

/// A floating-point number in decimal notation: an optional minus sign and
/// digits, with at most one point among them.
#[derive(Debug, PartialEq, Eq)]
pub struct Decimal {
    text: String,
}

impl View for Decimal {
    type V = Seq<char>;

    closed spec fn view(&self) -> Seq<char> {
        self.text@
    }
}

impl Decimal {
    #[verifier::type_invariant]
    spec fn wf(self) -> bool {
        is_number(self.text@)
    }

    /// The number that `text` denotes, where it denotes one.
    pub fn parse(text: String) -> (r: Option<Decimal>)
        ensures
            r is Some <==> is_number(text@),
            r matches Some(number) ==> number@ == text@,
    {
        if check_number(text.as_str()) {
            Some(Decimal { text })
        } else {
            None
        }
    }

    /// The decimal notation of the number.
    pub fn as_str(&self) -> (r: &str)
        ensures
            r@ == self@,
            is_number(r@),
    {
        proof {
            use_type_invariant(self);
        }
        self.text.as_str()
    }
}

/// A dynamically typed scalar value of a request.
///
/// A timestamp, a structured document and a UUID travel in their textual
/// form.
#[derive(Debug, PartialEq, Eq)]
pub enum PrismaValue {
    String(String),
    Float(Decimal),
    Boolean(bool),
    DateTime(String),
    Enum(String),
    Json(String),
    Int(i32),
    Relation(i64),
    Null,
    Uuid(String),
    GraphqlId(GraphqlId),
}

/// A typed database literal.
#[derive(Debug, PartialEq, Eq)]
pub enum DatabaseValue {
    Text(String),
    Real(Decimal),
    Boolean(bool),
    DateTime(String),
    Json(String),
    Integer(i64),
    Null,
    Uuid(String),
}

/// The mathematical value of a database literal.
pub enum Literal {
    Text(Seq<char>),
    Real(Seq<char>),
    Boolean(bool),
    DateTime(Seq<char>),
    Json(Seq<char>),
    Integer(int),
    Null,
    Uuid(Seq<char>),
}

impl Literal {
    /// The literal as it stands in a statement: numbers, booleans and the
    /// null marker bare, everything else as a quoted string.
    pub open spec fn text(self) -> Seq<char> {
        match self {
            Literal::Text(s) => quoted(s),
            Literal::Real(s) => s,
            Literal::Boolean(b) => if b {
                "true"@
            } else {
                "false"@
            },
            Literal::DateTime(s) => quoted(s),
            Literal::Json(s) => quoted(s),
            Literal::Integer(i) => decimal(i),
            Literal::Null => "NULL"@,
            Literal::Uuid(s) => quoted(s),
        }
    }

    /// The literal as it stands inside a quoted pattern: the same text
    /// without the surrounding quotes.
    pub open spec fn bare(self) -> Seq<char> {
        match self {
            Literal::Text(s) => escaped(s),
            Literal::Real(s) => escaped(s),
            Literal::Boolean(b) => if b {
                "true"@
            } else {
                "false"@
            },
            Literal::DateTime(s) => escaped(s),
            Literal::Json(s) => escaped(s),
            Literal::Integer(i) => decimal(i),
            Literal::Null => "NULL"@,
            Literal::Uuid(s) => escaped(s),
        }
    }
}

impl View for DatabaseValue {
    type V = Literal;

    open spec fn view(&self) -> Literal {
        match self {
            DatabaseValue::Text(s) => Literal::Text(s@),
            DatabaseValue::Real(s) => Literal::Real(s@),
            DatabaseValue::Boolean(b) => Literal::Boolean(*b),
            DatabaseValue::DateTime(s) => Literal::DateTime(s@),
            DatabaseValue::Json(s) => Literal::Json(s@),
            DatabaseValue::Integer(i) => Literal::Integer(*i as int),
            DatabaseValue::Null => Literal::Null,
            DatabaseValue::Uuid(s) => Literal::Uuid(s@),
        }
    }
}

impl DatabaseValue {
    /// Appends the text of this literal to `out`.
    pub fn push_text(&self, out: &mut String)
        ensures
            final(out)@ == old(out)@ + self@.text(),
    {
        match self {
            DatabaseValue::Text(s) => push_quoted(out, s.as_str()),
            DatabaseValue::Real(number) => out.append(number.as_str()),
            DatabaseValue::Boolean(b) => {
                if *b {
                    out.append("true")
                } else {
                    out.append("false")
                }
            },
            DatabaseValue::DateTime(s) => push_quoted(out, s.as_str()),
            DatabaseValue::Json(s) => push_quoted(out, s.as_str()),
            DatabaseValue::Integer(i) => push_decimal(out, *i),
            DatabaseValue::Null => out.append("NULL"),
            DatabaseValue::Uuid(s) => push_quoted(out, s.as_str()),
        }
    }

    /// Appends the text of this literal, as it stands inside a quoted
    /// pattern, to `out`.
    pub fn push_bare(&self, out: &mut String)
        ensures
            final(out)@ == old(out)@ + self@.bare(),
    {
        match self {
            DatabaseValue::Text(s) => push_escaped(out, s.as_str()),
            DatabaseValue::Real(number) => push_escaped(out, number.as_str()),
            DatabaseValue::Boolean(b) => {
                if *b {
                    out.append("true")
                } else {
                    out.append("false")
                }
            },
            DatabaseValue::DateTime(s) => push_escaped(out, s.as_str()),
            DatabaseValue::Json(s) => push_escaped(out, s.as_str()),
            DatabaseValue::Integer(i) => push_decimal(out, *i),
            DatabaseValue::Null => out.append("NULL"),
            DatabaseValue::Uuid(s) => push_escaped(out, s.as_str()),
        }
    }

    /// The text of this literal.
    pub fn to_text(&self) -> (r: String)
        ensures
            r@ == self@.text(),
    {
        let mut out = String::new();
        self.push_text(&mut out);
        out
    }
}

impl GraphqlId {
    /// The literal that this identifier is coerced to: a text literal for a
    /// string, an integer literal for an integer.
    pub open spec fn literal(&self) -> Literal {
        match self {
            GraphqlId::String(s) => Literal::Text(s@),
            GraphqlId::Int(i) => Literal::Integer(*i as int),
        }
    }

    /// Coerces the identifier to a database literal.
    pub fn to_database_value(self) -> (r: DatabaseValue)
        ensures
            r@ == self.literal(),
    {
        match self {
            GraphqlId::String(s) => DatabaseValue::Text(s),
            GraphqlId::Int(i) => DatabaseValue::Integer(i),
        }
    }

    /// The database literal of the identifier, which stays with its owner.
    pub fn database_value(&self) -> (r: DatabaseValue)
        ensures
            r@ == self.literal(),
    {
        match self {
            GraphqlId::String(s) => DatabaseValue::Text(s.clone()),
            GraphqlId::Int(i) => DatabaseValue::Integer(*i),
        }
    }
}

impl PrismaValue {
    /// The literal that this value is coerced to.
    pub open spec fn literal(&self) -> Literal {
        match self {
            PrismaValue::String(s) => Literal::Text(s@),
            PrismaValue::Float(f) => Literal::Real(f@),
            PrismaValue::Boolean(b) => Literal::Boolean(*b),
            PrismaValue::DateTime(d) => Literal::DateTime(d@),
            PrismaValue::Enum(e) => Literal::Text(e@),
            PrismaValue::Json(j) => Literal::Json(j@),
            PrismaValue::Int(i) => Literal::Integer(*i as int),
            PrismaValue::Relation(i) => Literal::Integer(*i as int),
            PrismaValue::Null => Literal::Null,
            PrismaValue::Uuid(u) => Literal::Uuid(u@),
            PrismaValue::GraphqlId(id) => id.literal(),
        }
    }

    /// Whether this value is the null marker.
    pub open spec fn spec_is_null_value(&self) -> bool {
        self is Null
    }

    #[verifier::when_used_as_spec(spec_is_null_value)]
    pub fn is_null_value(&self) -> (r: bool)
        ensures
            r == self.spec_is_null_value(),
    {
        match self {
            PrismaValue::Null => true,
            _ => false,
        }
    }

    /// Coerces the value to a database literal. Every case has exactly one
    /// literal; an integer is widened to 64 bits.
    pub fn to_database_value(self) -> (r: DatabaseValue)
        ensures
            r@ == self.literal(),
    {
        match self {
            PrismaValue::String(s) => DatabaseValue::Text(s),
            PrismaValue::Float(f) => DatabaseValue::Real(f),
            PrismaValue::Boolean(b) => DatabaseValue::Boolean(b),
            PrismaValue::DateTime(d) => DatabaseValue::DateTime(d),
            PrismaValue::Enum(e) => DatabaseValue::Text(e),
            PrismaValue::Json(j) => DatabaseValue::Json(j),
            PrismaValue::Int(i) => DatabaseValue::Integer(i as i64),
            PrismaValue::Relation(i) => DatabaseValue::Integer(i),
            PrismaValue::Null => DatabaseValue::Null,
            PrismaValue::Uuid(u) => DatabaseValue::Uuid(u),
            PrismaValue::GraphqlId(id) => id.to_database_value(),
        }
    }
}

/// Coercion is stable: whenever one value is coerced, the same literal comes
/// out, of the same kind and with the same text.
pub proof fn coercion_is_stable(value: PrismaValue, first: DatabaseValue, second: DatabaseValue)
    requires
        first@ == value.literal(),
        second@ == value.literal(),
    ensures
        first@ == second@,
        first@.text() == second@.text(),
{
}

} // verus!
