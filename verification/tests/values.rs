use prisma::condition::{Comparison, ConditionTree, Matching, Predicate};
use prisma::error::{Error, ErrorKind};
use prisma::text::{check_number, format_integer};
use prisma::value::{DatabaseValue, Decimal, GraphqlId, PrismaValue};

fn number(value: f32) -> Decimal {
    Decimal::parse((value as f64).to_string()).unwrap()
}

#[test]
fn test_every_case_has_one_literal() {
    assert_eq!(
        DatabaseValue::Text("a".to_string()),
        PrismaValue::String("a".to_string()).to_database_value()
    );
    assert_eq!(
        DatabaseValue::Real(Decimal::parse("1.5".to_string()).unwrap()),
        PrismaValue::Float(number(1.5)).to_database_value()
    );
    assert_eq!(DatabaseValue::Boolean(true), PrismaValue::Boolean(true).to_database_value());
    assert_eq!(
        DatabaseValue::DateTime("2019-03-01T12:00:00Z".to_string()),
        PrismaValue::DateTime("2019-03-01T12:00:00Z".to_string()).to_database_value()
    );
    assert_eq!(
        DatabaseValue::Text("ADMIN".to_string()),
        PrismaValue::Enum("ADMIN".to_string()).to_database_value()
    );
    assert_eq!(
        DatabaseValue::Json("{\"a\":1}".to_string()),
        PrismaValue::Json("{\"a\":1}".to_string()).to_database_value()
    );
    assert_eq!(DatabaseValue::Integer(-7), PrismaValue::Int(-7).to_database_value());
    assert_eq!(
        DatabaseValue::Integer(i32::MIN as i64),
        PrismaValue::Int(i32::MIN).to_database_value()
    );
    assert_eq!(
        DatabaseValue::Integer(9_000_000_000),
        PrismaValue::Relation(9_000_000_000).to_database_value()
    );
    assert_eq!(DatabaseValue::Null, PrismaValue::Null.to_database_value());
    assert_eq!(
        DatabaseValue::Uuid("936da01f-9abd-4d9d-80c7-02af85c822a8".to_string()),
        PrismaValue::Uuid("936da01f-9abd-4d9d-80c7-02af85c822a8".to_string()).to_database_value()
    );
    assert_eq!(
        DatabaseValue::Text("cjs1".to_string()),
        PrismaValue::GraphqlId(GraphqlId::String("cjs1".to_string())).to_database_value()
    );
    assert_eq!(
        DatabaseValue::Integer(42),
        PrismaValue::GraphqlId(GraphqlId::Int(42)).to_database_value()
    );
}

#[test]
fn test_identifier_literals() {
    assert_eq!(DatabaseValue::Integer(5), GraphqlId::Int(5).to_database_value());
    assert_eq!(
        DatabaseValue::Text("x".to_string()),
        GraphqlId::String("x".to_string()).to_database_value()
    );
    let id = GraphqlId::String("kept".to_string());
    assert_eq!(DatabaseValue::Text("kept".to_string()), id.database_value());
    assert_eq!(GraphqlId::String("kept".to_string()), id);
    assert_eq!(DatabaseValue::Integer(-1), GraphqlId::Int(-1).database_value());
}

#[test]
fn test_coercion_is_stable() {
    let first = PrismaValue::String("it's".to_string()).to_database_value();
    let second = PrismaValue::String("it's".to_string()).to_database_value();
    assert_eq!(first, second);
    assert_eq!(first.to_text(), second.to_text());
    assert_eq!("'it''s'", first.to_text());
    let first = PrismaValue::Float(number(0.25)).to_database_value();
    let second = PrismaValue::Float(number(0.25)).to_database_value();
    assert_eq!(first, second);
    assert_eq!("0.25", first.to_text());
    assert_eq!(first.to_text(), second.to_text());
}

#[test]
fn test_literal_texts() {
    assert_eq!("'bar'", DatabaseValue::Text("bar".to_string()).to_text());
    assert_eq!("''", DatabaseValue::Text(String::new()).to_text());
    assert_eq!("''''", DatabaseValue::Text("'".to_string()).to_text());
    assert_eq!("'näkki''ä'", DatabaseValue::Text("näkki'ä".to_string()).to_text());
    assert_eq!("2.5", DatabaseValue::Real(number(2.5)).to_text());
    assert_eq!("-1", DatabaseValue::Real(number(-1.0)).to_text());
    assert_eq!("0.0625", DatabaseValue::Real(number(0.0625)).to_text());
    assert_eq!("true", DatabaseValue::Boolean(true).to_text());
    assert_eq!("false", DatabaseValue::Boolean(false).to_text());
    assert_eq!(
        "'2019-03-01T12:00:00Z'",
        DatabaseValue::DateTime("2019-03-01T12:00:00Z".to_string()).to_text()
    );
    assert_eq!("'{\"a\":\"b''c\"}'", DatabaseValue::Json("{\"a\":\"b'c\"}".to_string()).to_text());
    assert_eq!("-12", DatabaseValue::Integer(-12).to_text());
    assert_eq!("NULL", DatabaseValue::Null.to_text());
    assert_eq!("'abc'", DatabaseValue::Uuid("abc".to_string()).to_text());
}

#[test]
fn test_bare_texts() {
    let mut out = String::from(">");
    DatabaseValue::Text("a'b".to_string()).push_bare(&mut out);
    DatabaseValue::Integer(10).push_bare(&mut out);
    DatabaseValue::Null.push_bare(&mut out);
    DatabaseValue::Boolean(false).push_bare(&mut out);
    assert_eq!(">a''b10NULLfalse", out);
}

#[test]
fn test_format_integer() {
    assert_eq!("0", format_integer(0));
    assert_eq!("7", format_integer(7));
    assert_eq!("10", format_integer(10));
    assert_eq!("-1", format_integer(-1));
    assert_eq!("1234567890", format_integer(1234567890));
    assert_eq!("9223372036854775807", format_integer(i64::MAX));
    assert_eq!("-9223372036854775808", format_integer(i64::MIN));
    assert_eq!("-9223372036854775807", format_integer(i64::MIN + 1));
}

#[test]
fn test_null_marker_is_recognised() {
    assert!(PrismaValue::Null.is_null_value());
    assert!(!PrismaValue::Int(0).is_null_value());
    assert!(!PrismaValue::String("NULL".to_string()).is_null_value());
}

#[test]
fn test_predicates_compile() {
    let text = |predicate: Predicate| ConditionTree::single(predicate).compile();
    assert_eq!(
        "a = 1",
        text(Predicate::Compare("a".to_string(), Comparison::Equals, DatabaseValue::Integer(1)))
    );
    assert_eq!(
        "a <> 'x'",
        text(Predicate::Compare(
            "a".to_string(),
            Comparison::NotEquals,
            DatabaseValue::Text("x".to_string())
        ))
    );
    assert_eq!(
        "a LIKE 'x%'",
        text(Predicate::Match(
            "a".to_string(),
            Matching::BeginsWith,
            DatabaseValue::Text("x".to_string())
        ))
    );
    assert_eq!(
        "a NOT LIKE '%x'",
        text(Predicate::Match(
            "a".to_string(),
            Matching::NotEndsInto,
            DatabaseValue::Text("x".to_string())
        ))
    );
    assert_eq!(
        "a IN ('x', NULL, 3)",
        text(Predicate::In(
            "a".to_string(),
            vec![
                DatabaseValue::Text("x".to_string()),
                DatabaseValue::Null,
                DatabaseValue::Integer(3)
            ]
        ))
    );
    assert_eq!("a NOT IN ()", text(Predicate::NotIn("a".to_string(), Vec::new())));
    assert_eq!("a IS NULL", text(Predicate::IsNull("a".to_string())));
    assert_eq!("a IS NOT NULL", text(Predicate::IsNotNull("a".to_string())));
}

#[test]
fn test_patterns() {
    let value = DatabaseValue::Text("50%".to_string());
    assert_eq!("%50%%", Matching::Like.pattern_of(&value));
    assert_eq!("%50%%", Matching::NotLike.pattern_of(&value));
    assert_eq!("50%%", Matching::BeginsWith.pattern_of(&value));
    assert_eq!("50%%", Matching::NotBeginsWith.pattern_of(&value));
    assert_eq!("%50%", Matching::EndsInto.pattern_of(&value));
    assert_eq!("%50%", Matching::NotEndsInto.pattern_of(&value));
    assert!(Matching::NotLike.is_negated());
    assert!(Matching::NotBeginsWith.is_negated());
    assert!(Matching::NotEndsInto.is_negated());
    assert!(!Matching::Like.is_negated());
    assert!(!Matching::BeginsWith.is_negated());
    assert!(!Matching::EndsInto.is_negated());
}

#[test]
fn test_trees_compile() {
    let leaf = || ConditionTree::single(Predicate::IsNull("a".to_string()));
    assert_eq!("1=1", ConditionTree::NoCondition.compile());
    assert_eq!("1=0", ConditionTree::NegativeCondition.compile());
    assert_eq!("(a IS NULL AND 1=1)", ConditionTree::and(leaf(), ConditionTree::NoCondition).compile());
    assert_eq!("(1=0 OR a IS NULL)", ConditionTree::or(ConditionTree::NegativeCondition, leaf()).compile());
    assert_eq!("(NOT a IS NULL)", ConditionTree::not(leaf()).compile());
    let mut out = String::from("WHERE ");
    ConditionTree::not(ConditionTree::or(leaf(), leaf())).push_sql(&mut out);
    assert_eq!("WHERE (NOT (a IS NULL OR a IS NULL))", out);
}

#[test]
fn test_error_kinds_and_messages() {
    assert_eq!(ErrorKind::Decode, Error::DecodeError("a".to_string()).kind());
    assert_eq!(ErrorKind::NotFound, Error::NotFound("b".to_string()).kind());
    assert_eq!(ErrorKind::InvalidInput, Error::InvalidInput("c".to_string()).kind());
    assert_eq!("a", Error::DecodeError("a".to_string()).message());
    assert_eq!("b", Error::NotFound("b".to_string()).message());
    assert_eq!("c", Error::InvalidInput("c".to_string()).message());
}

#[test]
fn test_numbers_in_decimal_notation() {
    for text in ["0", "7", "-1", "1.5", "-0.25", "10.0", "0.0000001", "340282346638528860000000"] {
        assert!(check_number(text), "{}", text);
        assert_eq!(text, Decimal::parse(text.to_string()).unwrap().as_str());
    }
    for text in [
        "", "-", ".", "-.", "1.", ".5", "-.5", "1..2", "1.2.3", "--1", "1-", "-1-", "1e5", "NaN",
        "inf", "-inf", "+1", " 1", "1 ", "1,5", "0x10", "1 OR 1=1", "١",
    ] {
        assert!(!check_number(text), "{}", text);
        assert_eq!(None, Decimal::parse(text.to_string()));
    }
}

#[test]
fn test_numbers_of_the_machine() {
    assert_eq!("1.5", number(1.5).as_str());
    assert_eq!("-2", number(-2.0).as_str());
    assert_eq!("340282346638528860000000000000000000000", number(f32::MAX).as_str());
    assert_eq!(None, Decimal::parse(f64::NAN.to_string()));
    assert_eq!(None, Decimal::parse(f64::INFINITY.to_string()));
    assert_eq!(None, Decimal::parse(f64::NEG_INFINITY.to_string()));
}
