//! The assembly of a select query from a decoded request.

use crate::condition::{Comparison, ConditionTree, ConditionView, Predicate, PredicateView};
use crate::error::{Error, ErrorKind};
use crate::filter::{Filter, ValueContainer};
use crate::project::{ProjectRef, ProjectTemplate};
use crate::query_arguments::{OrderBy, QueryArguments};
use crate::schema::{model_position, ModelRef};
use crate::text::same_text;
use crate::value::GraphqlId;
use vstd::prelude::*;

verus! {

/// The selection of a relation and of fields of the model it leads to.
#[derive(Debug, PartialEq, Eq)]
pub struct RelationalField {
    pub field: String,
    pub selected_fields: Vec<SelectedField>,
}

/// What a selection names: a scalar field, or a relation.
#[derive(Debug, PartialEq, Eq)]
pub enum Selection {
    Scalar(String),
    Relational(RelationalField),
}

/// The reference to one selected field. A message that was decoded without
/// a selection leaves `field` empty.
#[derive(Debug, PartialEq, Eq)]
pub struct SelectedField {
    pub field: Option<Selection>,
}

/// The request for the one node whose field has a given value.
#[derive(Debug, PartialEq, Eq)]
pub struct GetNodeByWhereInput {
    /// The project template as it arrived, for the decoding layer.
    pub project_json: Vec<u8>,
    pub model_name: String,
    pub field_name: String,
    pub value: ValueContainer,
    pub selected_fields: Vec<SelectedField>,
}

/// The request for the nodes that meet the query arguments.
#[derive(Debug, PartialEq, Eq)]
pub struct GetNodesInput {
    /// The project template as it arrived, for the decoding layer.
    pub project_json: Vec<u8>,
    pub model_name: String,
    pub query_arguments: QueryArguments,
    pub selected_fields: Vec<SelectedField>,
}

/// A select query, ready to be compiled.
#[derive(Debug)]
pub struct SelectQuery {
    pub project: ProjectRef,
    pub model: ModelRef,
    /// The names of the selected scalar fields, each once.
    pub selected_fields: Vec<String>,
    pub conditions: ConditionTree,
    pub cursor: Option<GraphqlId>,
    pub order_by: Option<OrderBy>,
    pub skip: Option<u32>,
    pub first: Option<u32>,
}

/// The texts of a list of names.
pub open spec fn texts(names: Seq<String>) -> Seq<Seq<char>> {
    Seq::new(names.len(), |i: int| names[i]@)
}

/// The names of the scalar fields among the selections, each once, in the
/// order in which they first occur.
pub open spec fn scalar_names(fields: Seq<SelectedField>) -> Seq<Seq<char>>
    decreases fields.len(),
{
    if fields.len() == 0 {
        Seq::empty()
    } else {
        let names = scalar_names(fields.drop_last());
        match fields.last().field {
            Some(Selection::Scalar(name)) => if names.contains(name@) {
                names
            } else {
                names.push(name@)
            },
            _ => names,
        }
    }
}

/// A selection names the scalar field `name`.
pub open spec fn selects(field: SelectedField, name: Seq<char>) -> bool {
    field.field matches Some(Selection::Scalar(n)) && n@ == name
}

/// The collected names hold no name twice, and hold a name exactly where a
/// selection names it as a scalar field.
pub proof fn scalar_names_are_a_set(fields: Seq<SelectedField>)
    ensures
        scalar_names(fields).no_duplicates(),
        forall|name: Seq<char>|
            scalar_names(fields).contains(name) <==> exists|i: int|
                0 <= i < fields.len() && selects(#[trigger] fields[i], name),
    decreases fields.len(),
{
    if fields.len() > 0 {
        let before = fields.drop_last();
        let names = scalar_names(before);
        scalar_names_are_a_set(before);
        assert forall|name: Seq<char>|
            scalar_names(fields).contains(name) <==> exists|i: int|
                0 <= i < fields.len() && selects(#[trigger] fields[i], name) by {
            if names.contains(name) {
                let at = choose|k: int| 0 <= k < names.len() && names[k] == name;
                assert(scalar_names(fields)[at] == name);
            } else if exists|i: int| 0 <= i < fields.len() && selects(#[trigger] fields[i], name) {
                let i = choose|i: int| 0 <= i < fields.len() && selects(#[trigger] fields[i], name);
                if i < fields.len() - 1 {
                    assert(selects(before[i], name));
                } else {
                    assert(scalar_names(fields)[names.len() as int] == name);
                }
            }
        }
    }
}

/// Whether `name` is among `names`.
fn holds(names: &Vec<String>, name: &str) -> (r: bool)
    ensures
        r == texts(names@).contains(name@),
{
    let mut i: usize = 0;
    while i < names.len()
        invariant
            i <= names.len(),
            forall|j: int| 0 <= j < i ==> texts(names@)[j] != name@,
        decreases names.len() - i,
    {
        if same_text(names[i].as_str(), name) {
            assert(texts(names@)[i as int] == name@);
            return true;
        }
        i = i + 1;
    }
    false
}

/// Collects the names of the selected scalar fields, each once.
pub fn collect_scalars(fields: Vec<SelectedField>) -> (r: Vec<String>)
    ensures
        texts(r@) == scalar_names(fields@),
{
    let mut names: Vec<String> = Vec::new();
    for field in it: fields
        invariant
            it.seq() == fields@,
            texts(names@) == scalar_names(fields@.subrange(0, it.index())),
    {
        assert(fields@.subrange(0, it.index() + 1).drop_last() =~= fields@.subrange(
            0,
            it.index(),
        ));
        match field.field {
            Some(Selection::Scalar(name)) => {
                if !holds(&names, name.as_str()) {
                    names.push(name);
                }
            },
            _ => {},
        }
    }
    assert(fields@.subrange(0, fields@.len() as int) =~= fields@);
    names
}

impl GetNodeByWhereInput {
    /// What the request asks for, in mathematical terms: the condition that
    /// the field equals the value, or the kind of the failure. The description
    /// of the schema is looked at first, then the model, then the value.
    pub open spec fn conditions(&self, template: &ProjectTemplate) -> Result<
        ConditionView,
        ErrorKind,
    > {
        if !template.schema.valid() {
            Err(ErrorKind::InvalidInput)
        } else if model_position(template.schema.models@, self.model_name@)
            >= template.schema.models.len() {
            Err(ErrorKind::NotFound)
        } else {
            match self.value.prisma_value {
                None => Err(ErrorKind::Decode),
                Some(value) => Ok(
                    ConditionView::Single(
                        PredicateView::Compare(
                            self.field_name@,
                            Comparison::Equals,
                            value.literal(),
                        ),
                    ),
                ),
            }
        }
    }

    /// Assembles the select query of the request from the decoded project
    /// template: the project that the template builds, the model of the
    /// request, the selected scalar fields, and the condition that the field
    /// equals the value. There is no cursor, no ordering and no limit.
    pub fn into_select_query(self, template: ProjectTemplate) -> (r: Result<SelectQuery, Error>)
        ensures
            match r {
                Ok(query) => {
                    &&& self.conditions(&template) == Ok::<ConditionView, ErrorKind>(
                        query.conditions@,
                    )
                    &&& template.builds(*query.project)
                    &&& model_position(template.schema.models@, self.model_name@)
                        < template.schema.models.len()
                    &&& *query.model == template.schema.models[model_position(
                        template.schema.models@,
                        self.model_name@,
                    ) as int]
                    &&& texts(query.selected_fields@) == scalar_names(self.selected_fields@)
                    &&& query.cursor is None
                    &&& query.order_by is None
                    &&& query.skip is None
                    &&& query.first is None
                },
                Err(e) => self.conditions(&template) == Err::<ConditionView, ErrorKind>(e.kind()),
            },
    {
        let project = match template.build() {
            Ok(project) => project,
            Err(e) => {
                return Err(e);
            },
        };
        let model = match project.schema().find_model(self.model_name.as_str()) {
            Ok(model) => model,
            Err(e) => {
                return Err(e);
            },
        };
        let fields = collect_scalars(self.selected_fields);
        let value = match self.value.prisma_value {
            Some(value) => value,
            None => {
                return Err(Error::DecodeError(String::from_str("Search value cannot be empty.")));
            },
        };
        Ok(
            SelectQuery {
                project,
                model,
                selected_fields: fields,
                conditions: ConditionTree::single(
                    Predicate::Compare(
                        self.field_name,
                        Comparison::Equals,
                        value.to_database_value(),
                    ),
                ),
                cursor: None,
                order_by: None,
                skip: None,
                first: None,
            },
        )
    }
}

/// The condition of the filter of a query: no condition where there is no
/// filter.
pub open spec fn filter_condition(filter: Option<Filter>) -> Result<ConditionView, ErrorKind> {
    match filter {
        None => Ok(ConditionView::NoCondition),
        Some(filter) => filter.translation(),
    }
}

impl GetNodesInput {
    /// What the request asks for, in mathematical terms: the conjunction of
    /// the condition of the filter and the condition that pages from the
    /// cursor, or the kind of the failure. The description of the schema is
    /// looked at first, then the model, then the filter, then the cursor.
    pub open spec fn conditions(&self, template: &ProjectTemplate) -> Result<
        ConditionView,
        ErrorKind,
    > {
        let position = model_position(template.schema.models@, self.model_name@);
        if !template.schema.valid() {
            Err(ErrorKind::InvalidInput)
        } else if position >= template.schema.models.len() {
            Err(ErrorKind::NotFound)
        } else {
            match filter_condition(self.query_arguments.filter) {
                Err(e) => Err(e),
                Ok(filter) => match self.query_arguments.cursor(
                    &template.schema.models[position as int],
                ) {
                    Err(e) => Err(e),
                    Ok(cursor) => Ok(ConditionView::And(Box::new(filter), Box::new(cursor))),
                },
            }
        }
    }

    /// Assembles the select query of the request from the decoded project
    /// template: the project that the template builds, the model of the
    /// request, the selected scalar fields, the conjunction of the filter's
    /// condition and the cursor's, and the cursor, the ordering and the limits
    /// as they came.
    pub fn into_select_query(self, template: ProjectTemplate) -> (r: Result<SelectQuery, Error>)
        ensures
            match r {
                Ok(query) => {
                    &&& self.conditions(&template) == Ok::<ConditionView, ErrorKind>(
                        query.conditions@,
                    )
                    &&& template.builds(*query.project)
                    &&& model_position(template.schema.models@, self.model_name@)
                        < template.schema.models.len()
                    &&& *query.model == template.schema.models[model_position(
                        template.schema.models@,
                        self.model_name@,
                    ) as int]
                    &&& texts(query.selected_fields@) == scalar_names(self.selected_fields@)
                    &&& query.cursor == self.query_arguments.spec_cursor()
                    &&& query.order_by == self.query_arguments.order_by
                    &&& query.skip == self.query_arguments.skip
                    &&& query.first == self.query_arguments.first
                },
                Err(e) => self.conditions(&template) == Err::<ConditionView, ErrorKind>(e.kind()),
            },
    {
        let project = match template.build() {
            Ok(project) => project,
            Err(e) => {
                return Err(e);
            },
        };
        let model = match project.schema().find_model(self.model_name.as_str()) {
            Ok(model) => model,
            Err(e) => {
                return Err(e);
            },
        };
        let fields = collect_scalars(self.selected_fields);
        let arguments = self.query_arguments;
        let paging = arguments.cursor_condition(&model);
        let QueryArguments { skip, after, first, before, filter, order_by } = arguments;
        let filtering = match filter {
            None => ConditionTree::NoCondition,
            Some(filter) => match filter.translate() {
                Ok(tree) => tree,
                Err(e) => {
                    return Err(e);
                },
            },
        };
        let paging = match paging {
            Ok(tree) => tree,
            Err(e) => {
                return Err(e);
            },
        };
        let cursor = match before {
            Some(id) => Some(id),
            None => after,
        };
        Ok(
            SelectQuery {
                project,
                model,
                selected_fields: fields,
                conditions: ConditionTree::and(filtering, paging),
                cursor,
                order_by,
                skip,
                first,
            },
        )
    }
}

} // verus!
