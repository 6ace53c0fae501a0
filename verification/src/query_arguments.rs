//! The arguments of a query for several nodes, and the condition that pages
//! through them from a cursor.

use crate::condition::{Comparison, ConditionTree, ConditionView, Predicate, PredicateView};
use crate::error::{Error, ErrorKind};
use crate::filter::Filter;
use crate::schema::{id_position, scalar_position, Model};
use crate::value::GraphqlId;
use vstd::prelude::*;

verus! {

/// The direction of an ordering.
#[derive(Clone, Copy, Debug, PartialEq, Eq, Structural)]
pub enum SortOrder {
    Asc,
    Desc,
}

/// The scalar field that the nodes are ordered by, and the direction.
#[derive(Debug, PartialEq, Eq)]
pub struct OrderBy {
    pub scalar_field: String,
    pub sort_order: SortOrder,
}

/// The arguments of a query for several nodes.
#[derive(Debug, PartialEq, Eq)]
pub struct QueryArguments {
    pub skip: Option<u32>,
    pub after: Option<GraphqlId>,
    pub first: Option<u32>,
    pub before: Option<GraphqlId>,
    pub filter: Option<Filter>,
    pub order_by: Option<OrderBy>,
}

impl QueryArguments {
    /// The direction of the ordering: the one stated, else ascending.
    pub open spec fn spec_sort_order(&self) -> SortOrder {
        match self.order_by {
            Some(order) => order.sort_order,
            None => SortOrder::Asc,
        }
    }

    /// The comparison of the ordering field with the cursor: what comes
    /// before the cursor is less than it, what comes after it is greater, and
    /// the other way round where the ordering descends.
    pub open spec fn cursor_comparison(&self) -> Comparison {
        if (self.before is Some) == (self.spec_sort_order() == SortOrder::Asc) {
            Comparison::LessThan
        } else {
            Comparison::GreaterThan
        }
    }

    /// The cursor: `before` where it is present, else `after`.
    pub open spec fn spec_cursor(&self) -> Option<GraphqlId> {
        match self.before {
            Some(id) => Some(id),
            None => self.after,
        }
    }

    /// The condition that pages from the cursor: no condition without a
    /// cursor, else one comparison of the column of the ordering field, which
    /// is the scalar field stated or else the identifier of the model, with
    /// the cursor. An ordering by a field that the model lacks is an invalid
    /// input.
    pub open spec fn cursor(&self, model: &Model) -> Result<ConditionView, ErrorKind> {
        match self.spec_cursor() {
            None => Ok(ConditionView::NoCondition),
            Some(id) => {
                let position = match self.order_by {
                    Some(order) => scalar_position(model.fields@, order.scalar_field@),
                    None => id_position(model.fields@),
                };
                if position < model.fields.len() {
                    Ok(
                        ConditionView::Single(
                            PredicateView::Compare(
                                model.fields[position as int].db_name@,
                                self.cursor_comparison(),
                                id.literal(),
                            ),
                        ),
                    )
                } else {
                    Err(ErrorKind::InvalidInput)
                }
            },
        }
    }

    #[verifier::when_used_as_spec(spec_sort_order)]
    pub fn sort_order(&self) -> (r: SortOrder)
        ensures
            r == self.spec_sort_order(),
    {
        match &self.order_by {
            Some(order) => order.sort_order,
            None => SortOrder::Asc,
        }
    }

    /// Builds the condition that pages from the cursor.
    pub fn cursor_condition(&self, model: &Model) -> (r: Result<ConditionTree, Error>)
        requires
            model.wf(),
        ensures
            match r {
                Ok(tree) => self.cursor(model) == Ok::<ConditionView, ErrorKind>(tree@),
                Err(e) => self.cursor(model) == Err::<ConditionView, ErrorKind>(e.kind()),
            },
    {
        let (id, backward) = match (&self.before, &self.after) {
            (None, None) => {
                return Ok(ConditionTree::NoCondition);
            },
            (Some(id), _) => (id, true),
            (None, Some(id)) => (id, false),
        };
        let field = match &self.order_by {
            Some(order) => match model.find_from_scalar(order.scalar_field.as_str()) {
                Ok(field) => field,
                Err(_) => {
                    return Err(
                        Error::InvalidInput(
                            String::from_str("The model has no scalar field to order by."),
                        ),
                    );
                },
            },
            None => model.id(),
        };
        let ascending = match self.sort_order() {
            SortOrder::Asc => true,
            SortOrder::Desc => false,
        };
        let comparison = if backward == ascending {
            Comparison::LessThan
        } else {
            Comparison::GreaterThan
        };
        Ok(
            ConditionTree::single(
                Predicate::Compare(field.db_name.clone(), comparison, id.database_value()),
            ),
        )
    }
}

} // verus!
