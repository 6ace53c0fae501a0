use prisma::condition::ConditionTree;
use prisma::error::ErrorKind;
use prisma::filter::{Filter, ValueContainer};
use prisma::project::{DefaultTrue, ProjectManifestation, ProjectTemplate, Revision};
use prisma::query_arguments::{OrderBy, QueryArguments, SortOrder};
use prisma::schema::{Field, FieldKind, Model, SchemaTemplate};
use prisma::select::{
    collect_scalars, GetNodeByWhereInput, GetNodesInput, RelationalField, SelectedField, Selection,
};
use prisma::value::{GraphqlId, PrismaValue};

fn field(name: &str, db_name: &str, kind: FieldKind) -> Field {
    Field { name: name.to_string(), db_name: db_name.to_string(), kind }
}

fn user() -> Model {
    Model {
        name: "User".to_string(),
        db_name: "user".to_string(),
        fields: vec![
            field("posts", "posts", FieldKind::Relation),
            field("name", "name_column", FieldKind::Scalar),
            field("id", "id_column", FieldKind::Identifier),
        ],
    }
}

fn template(models: Vec<Model>) -> ProjectTemplate {
    ProjectTemplate {
        id: "the-project".to_string(),
        schema: SchemaTemplate { models },
        functions: Vec::new(),
        manifestation: ProjectManifestation::default(),
        revision: Revision::default(),
        secrets: Vec::new(),
        allow_queries: DefaultTrue::default(),
        allow_mutations: DefaultTrue::default(),
    }
}

fn arguments(
    before: Option<GraphqlId>,
    after: Option<GraphqlId>,
    order_by: Option<OrderBy>,
) -> QueryArguments {
    QueryArguments { skip: None, after, first: None, before, filter: None, order_by }
}

fn by_name(sort_order: SortOrder) -> Option<OrderBy> {
    Some(OrderBy { scalar_field: "name".to_string(), sort_order })
}

fn scalar(name: &str) -> SelectedField {
    SelectedField { field: Some(Selection::Scalar(name.to_string())) }
}

fn cursor_sql(arguments: QueryArguments) -> String {
    arguments.cursor_condition(&user()).unwrap().compile()
}

#[test]
fn test_no_cursor_is_no_condition() {
    assert_eq!(
        Ok(ConditionTree::NoCondition),
        arguments(None, None, None).cursor_condition(&user())
    );
    assert_eq!(
        Ok(ConditionTree::NoCondition),
        arguments(None, None, by_name(SortOrder::Desc)).cursor_condition(&user())
    );
}

#[test]
fn test_no_cursor_ignores_an_unknown_ordering() {
    let order = Some(OrderBy { scalar_field: "nope".to_string(), sort_order: SortOrder::Asc });
    assert_eq!(
        Ok(ConditionTree::NoCondition),
        arguments(None, None, order).cursor_condition(&user())
    );
}

#[test]
fn test_cursor_before_ascending() {
    assert_eq!(
        "id_column < 10",
        cursor_sql(arguments(Some(GraphqlId::Int(10)), None, None))
    );
    assert_eq!(
        "name_column < 10",
        cursor_sql(arguments(Some(GraphqlId::Int(10)), None, by_name(SortOrder::Asc)))
    );
}

#[test]
fn test_cursor_after_ascending() {
    assert_eq!(
        "id_column > 'abc'",
        cursor_sql(arguments(None, Some(GraphqlId::String("abc".to_string())), None))
    );
    assert_eq!(
        "name_column > 10",
        cursor_sql(arguments(None, Some(GraphqlId::Int(10)), by_name(SortOrder::Asc)))
    );
}

#[test]
fn test_cursor_before_descending() {
    assert_eq!(
        "name_column > 10",
        cursor_sql(arguments(Some(GraphqlId::Int(10)), None, by_name(SortOrder::Desc)))
    );
}

#[test]
fn test_cursor_after_descending() {
    assert_eq!(
        "name_column < 10",
        cursor_sql(arguments(None, Some(GraphqlId::Int(10)), by_name(SortOrder::Desc)))
    );
}

#[test]
fn test_cursor_before_wins_over_after() {
    assert_eq!(
        "id_column < 1",
        cursor_sql(arguments(Some(GraphqlId::Int(1)), Some(GraphqlId::Int(2)), None))
    );
}

#[test]
fn test_cursor_orders_by_the_identifier_by_name() {
    let order = Some(OrderBy { scalar_field: "id".to_string(), sort_order: SortOrder::Desc });
    assert_eq!("id_column < 5", cursor_sql(arguments(None, Some(GraphqlId::Int(5)), order)));
}

#[test]
fn test_cursor_with_unknown_ordering_is_invalid_input() {
    let order = Some(OrderBy { scalar_field: "nope".to_string(), sort_order: SortOrder::Asc });
    let error =
        arguments(None, Some(GraphqlId::Int(5)), order).cursor_condition(&user()).unwrap_err();
    assert_eq!(ErrorKind::InvalidInput, error.kind());
    let relation = Some(OrderBy { scalar_field: "posts".to_string(), sort_order: SortOrder::Asc });
    let error =
        arguments(Some(GraphqlId::Int(5)), None, relation).cursor_condition(&user()).unwrap_err();
    assert_eq!(ErrorKind::InvalidInput, error.kind());
}

#[test]
fn test_sort_order_defaults_to_ascending() {
    assert_eq!(SortOrder::Asc, arguments(None, None, None).sort_order());
    assert_eq!(SortOrder::Desc, arguments(None, None, by_name(SortOrder::Desc)).sort_order());
}

#[test]
fn test_selected_scalars_are_collected_once() {
    let relational = SelectedField {
        field: Some(Selection::Relational(RelationalField {
            field: "posts".to_string(),
            selected_fields: vec![scalar("title")],
        })),
    };
    let fields = vec![
        scalar("name"),
        relational,
        scalar("id"),
        SelectedField { field: None },
        scalar("name"),
        scalar("id"),
        scalar("age"),
    ];
    assert_eq!(
        vec!["name".to_string(), "id".to_string(), "age".to_string()],
        collect_scalars(fields)
    );
    assert_eq!(Vec::<String>::new(), collect_scalars(Vec::new()));
}

fn by_where(model_name: &str, value: Option<PrismaValue>) -> GetNodeByWhereInput {
    GetNodeByWhereInput {
        project_json: Vec::new(),
        model_name: model_name.to_string(),
        field_name: "name".to_string(),
        value: ValueContainer { prisma_value: value },
        selected_fields: vec![scalar("id"), scalar("name"), scalar("id")],
    }
}

#[test]
fn test_node_by_where() {
    let query = by_where("User", Some(PrismaValue::String("Musti".to_string())))
        .into_select_query(template(vec![user()]))
        .unwrap();
    assert_eq!("the-project", query.project.id);
    assert_eq!(user(), *query.model);
    assert_eq!(vec!["id".to_string(), "name".to_string()], query.selected_fields);
    assert_eq!("name = 'Musti'", query.conditions.compile());
    assert_eq!(None, query.cursor);
    assert_eq!(None, query.order_by);
    assert_eq!(None, query.skip);
    assert_eq!(None, query.first);
    assert_eq!(user(), *query.project.schema().find_model("User").unwrap());
}

#[test]
fn test_node_by_where_compares_with_null_as_it_is() {
    let query = by_where("User", Some(PrismaValue::Null))
        .into_select_query(template(vec![user()]))
        .unwrap();
    assert_eq!("name = NULL", query.conditions.compile());
}

#[test]
fn test_node_by_where_unknown_model_is_not_found() {
    let error = by_where("Nope", Some(PrismaValue::Int(1)))
        .into_select_query(template(vec![user()]))
        .unwrap_err();
    assert_eq!(ErrorKind::NotFound, error.kind());
    let error = by_where("Nope", None).into_select_query(template(vec![user()])).unwrap_err();
    assert_eq!(ErrorKind::NotFound, error.kind());
}

#[test]
fn test_node_by_where_empty_value_is_decode_error() {
    let error = by_where("User", None).into_select_query(template(vec![user()])).unwrap_err();
    assert_eq!(ErrorKind::Decode, error.kind());
}

#[test]
fn test_node_by_where_invalid_schema_is_invalid_input() {
    let broken = Model { name: "User".to_string(), db_name: "user".to_string(), fields: Vec::new() };
    let error = by_where("User", None).into_select_query(template(vec![broken])).unwrap_err();
    assert_eq!(ErrorKind::InvalidInput, error.kind());
}

fn nodes(model_name: &str, query_arguments: QueryArguments) -> GetNodesInput {
    GetNodesInput {
        project_json: Vec::new(),
        model_name: model_name.to_string(),
        query_arguments,
        selected_fields: vec![scalar("name")],
    }
}

#[test]
fn test_nodes_with_filter_and_cursor() {
    let query_arguments = QueryArguments {
        skip: Some(3),
        after: Some(GraphqlId::Int(7)),
        first: Some(10),
        before: None,
        filter: Some(Filter::equals("name", PrismaValue::String("Musti".to_string()))),
        order_by: by_name(SortOrder::Desc),
    };
    let query = nodes("User", query_arguments).into_select_query(template(vec![user()])).unwrap();
    assert_eq!("(name = 'Musti' AND name_column < 7)", query.conditions.compile());
    assert_eq!(Some(GraphqlId::Int(7)), query.cursor);
    assert_eq!(by_name(SortOrder::Desc), query.order_by);
    assert_eq!(Some(3), query.skip);
    assert_eq!(Some(10), query.first);
    assert_eq!(vec!["name".to_string()], query.selected_fields);
    assert_eq!(user(), *query.model);
}

#[test]
fn test_nodes_without_filter_and_cursor() {
    let query = nodes("User", arguments(None, None, None))
        .into_select_query(template(vec![user()]))
        .unwrap();
    assert_eq!("(1=1 AND 1=1)", query.conditions.compile());
    assert_eq!(None, query.cursor);
}

#[test]
fn test_nodes_cursor_is_before_where_both_are_given() {
    let query = nodes("User", arguments(Some(GraphqlId::Int(1)), Some(GraphqlId::Int(2)), None))
        .into_select_query(template(vec![user()]))
        .unwrap();
    assert_eq!(Some(GraphqlId::Int(1)), query.cursor);
    assert_eq!("(1=1 AND id_column < 1)", query.conditions.compile());
}

#[test]
fn test_nodes_failures_in_their_order() {
    let broken = Model { name: "User".to_string(), db_name: "user".to_string(), fields: Vec::new() };
    let unknown_order =
        || Some(OrderBy { scalar_field: "nope".to_string(), sort_order: SortOrder::Asc });
    let bad_arguments = || QueryArguments {
        skip: None,
        after: Some(GraphqlId::Int(7)),
        first: None,
        before: None,
        filter: Some(Filter { type_: None }),
        order_by: unknown_order(),
    };
    let error = nodes("Nope", bad_arguments()).into_select_query(template(vec![broken])).unwrap_err();
    assert_eq!(ErrorKind::InvalidInput, error.kind());
    let error = nodes("Nope", bad_arguments()).into_select_query(template(vec![user()])).unwrap_err();
    assert_eq!(ErrorKind::NotFound, error.kind());
    let error = nodes("User", bad_arguments()).into_select_query(template(vec![user()])).unwrap_err();
    assert_eq!(ErrorKind::Decode, error.kind());
    let error = nodes("User", arguments(None, Some(GraphqlId::Int(7)), unknown_order()))
        .into_select_query(template(vec![user()]))
        .unwrap_err();
    assert_eq!(ErrorKind::InvalidInput, error.kind());
}
