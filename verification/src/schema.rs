//! The schema catalog: models, their fields, and lookup by name.

use crate::error::{Error, ErrorKind};
use crate::text::same_text;
use std::sync::Arc;
use vstd::prelude::*;

verus! {

pub type ModelRef = Arc<Model>;

pub type SchemaRef = Arc<Schema>;

/// What a field holds.
#[derive(Clone, Copy, Debug, PartialEq, Eq, Structural)]
pub enum FieldKind {
    /// A directly comparable value in a column.
    Scalar,
    /// A reference to another model.
    Relation,
    /// The primary identifier of the model.
    Identifier,
}

/// A field of a model and the column it is stored in.
#[derive(Debug, PartialEq, Eq)]
pub struct Field {
    pub name: String,
    pub db_name: String,
    pub kind: FieldKind,
}

/// A named entity with its fields in their order.
#[derive(Debug, PartialEq, Eq)]
pub struct Model {
    pub name: String,
    pub db_name: String,
    pub fields: Vec<Field>,
}

/// The catalog of the models of one project.
#[derive(Debug, PartialEq, Eq)]
pub struct Schema {
    /// The id of the project that owns this schema.
    pub project_id: String,
    pub models: Vec<ModelRef>,
}

/// The description of a schema, as decoded.
#[derive(Debug, PartialEq, Eq)]
pub struct SchemaTemplate {
    pub models: Vec<Model>,
}

impl Field {
    /// Whether the field is stored in a column of its own: every field but a
    /// relation.
    pub open spec fn spec_is_scalar(&self) -> bool {
        self.kind != FieldKind::Relation
    }

    #[verifier::when_used_as_spec(spec_is_scalar)]
    pub fn is_scalar(&self) -> (r: bool)
        ensures
            r == self.spec_is_scalar(),
    {
        match self.kind {
            FieldKind::Relation => false,
            _ => true,
        }
    }

    /// Whether the field is the primary identifier.
    pub open spec fn spec_is_id(&self) -> bool {
        self.kind == FieldKind::Identifier
    }

    #[verifier::when_used_as_spec(spec_is_id)]
    pub fn is_id(&self) -> (r: bool)
        ensures
            r == self.spec_is_id(),
    {
        match self.kind {
            FieldKind::Identifier => true,
            _ => false,
        }
    }
}

/// The number of identifier fields among `fields`.
pub open spec fn count_ids(fields: Seq<Field>) -> nat
    decreases fields.len(),
{
    if fields.len() == 0 {
        0
    } else {
        count_ids(fields.drop_last()) + if fields.last().is_id() {
            1nat
        } else {
            0nat
        }
    }
}

/// The position of the first scalar field called `name`, or the number of
/// fields where there is none.
pub open spec fn scalar_position(fields: Seq<Field>, name: Seq<char>) -> nat
    decreases fields.len(),
{
    if fields.len() == 0 {
        0
    } else if fields[0].is_scalar() && fields[0].name@ == name {
        0
    } else {
        1 + scalar_position(fields.drop_first(), name)
    }
}

/// The position of the first identifier field, or the number of fields where
/// there is none.
pub open spec fn id_position(fields: Seq<Field>) -> nat
    decreases fields.len(),
{
    if fields.len() == 0 {
        0
    } else if fields[0].is_id() {
        0
    } else {
        1 + id_position(fields.drop_first())
    }
}

/// The position of the first model called `name`, or the number of models
/// where there is none.
pub open spec fn model_position(models: Seq<Model>, name: Seq<char>) -> nat
    decreases models.len(),
{
    if models.len() == 0 {
        0
    } else if models[0].name@ == name {
        0
    } else {
        1 + model_position(models.drop_first(), name)
    }
}

proof fn lemma_scalar_position(fields: Seq<Field>, name: Seq<char>, checked: int)
    requires
        0 <= checked <= fields.len(),
        forall|j: int|
            0 <= j < checked ==> !((#[trigger] fields[j]).is_scalar() && fields[j].name@ == name),
    ensures
        scalar_position(fields, name) == checked + scalar_position(
            fields.subrange(checked, fields.len() as int),
            name,
        ),
    decreases checked,
{
    if checked == 0 {
        assert(fields.subrange(0, fields.len() as int) =~= fields);
    } else {
        lemma_scalar_position(fields, name, checked - 1);
        let tail = fields.subrange(checked - 1, fields.len() as int);
        assert(tail.drop_first() =~= fields.subrange(checked, fields.len() as int));
    }
}

proof fn lemma_id_position(fields: Seq<Field>, checked: int)
    requires
        0 <= checked <= fields.len(),
        forall|j: int| 0 <= j < checked ==> !(#[trigger] fields[j]).is_id(),
    ensures
        id_position(fields) == checked + id_position(fields.subrange(checked, fields.len() as int)),
    decreases checked,
{
    if checked == 0 {
        assert(fields.subrange(0, fields.len() as int) =~= fields);
    } else {
        lemma_id_position(fields, checked - 1);
        let tail = fields.subrange(checked - 1, fields.len() as int);
        assert(tail.drop_first() =~= fields.subrange(checked, fields.len() as int));
    }
}

proof fn lemma_model_position(models: Seq<Model>, name: Seq<char>, checked: int)
    requires
        0 <= checked <= models.len(),
        forall|j: int| 0 <= j < checked ==> (#[trigger] models[j]).name@ != name,
    ensures
        model_position(models, name) == checked + model_position(
            models.subrange(checked, models.len() as int),
            name,
        ),
    decreases checked,
{
    if checked == 0 {
        assert(models.subrange(0, models.len() as int) =~= models);
    } else {
        lemma_model_position(models, name, checked - 1);
        let tail = models.subrange(checked - 1, models.len() as int);
        assert(tail.drop_first() =~= models.subrange(checked, models.len() as int));
    }
}

/// Where exactly one field is an identifier, the first identifier is among
/// the fields.
proof fn lemma_id_exists(fields: Seq<Field>)
    requires
        count_ids(fields) >= 1,
    ensures
        0 <= id_position(fields) < fields.len(),
        fields[id_position(fields) as int].is_id(),
    decreases fields.len(),
{
    if !fields[0].is_id() {
        lemma_count_without_first(fields);
        lemma_id_exists(fields.drop_first());
    }
}

proof fn lemma_count_without_first(fields: Seq<Field>)
    requires
        fields.len() > 0,
    ensures
        count_ids(fields) == count_ids(fields.drop_first()) + if fields[0].is_id() {
            1nat
        } else {
            0nat
        },
    decreases fields.len(),
{
    if fields.len() == 1 {
        assert(fields.drop_last() =~= fields.drop_first());
    } else {
        lemma_count_without_first(fields.drop_last());
        assert(fields.drop_last().drop_first() =~= fields.drop_first().drop_last());
    }
}

impl Model {
    /// A model is well formed where exactly one of its fields is the primary
    /// identifier.
    pub open spec fn wf(&self) -> bool {
        count_ids(self.fields@) == 1
    }

    /// Whether exactly one field is the primary identifier.
    pub fn is_wf(&self) -> (r: bool)
        ensures
            r == self.wf(),
    {
        let mut found: usize = 0;
        let mut i: usize = 0;
        while i < self.fields.len()
            invariant
                i <= self.fields.len(),
                found <= i,
                found == count_ids(self.fields@.subrange(0, i as int)),
            decreases self.fields.len() - i,
        {
            assert(self.fields@.subrange(0, i + 1).drop_last() =~= self.fields@.subrange(
                0,
                i as int,
            ));
            if self.fields[i].is_id() {
                found = found + 1;
            }
            i = i + 1;
        }
        assert(self.fields@.subrange(0, i as int) =~= self.fields@);
        found == 1
    }

    /// The first scalar field called `name`.
    pub fn find_from_scalar(&self, name: &str) -> (r: Result<&Field, Error>)
        ensures
            match r {
                Ok(field) => {
                    &&& scalar_position(self.fields@, name@) < self.fields.len()
                    &&& *field == self.fields[scalar_position(self.fields@, name@) as int]
                },
                Err(e) => {
                    &&& scalar_position(self.fields@, name@) == self.fields.len()
                    &&& e.kind() == ErrorKind::NotFound
                },
            },
    {
        let mut i: usize = 0;
        while i < self.fields.len()
            invariant
                i <= self.fields.len(),
                forall|j: int|
                    0 <= j < i ==> !((#[trigger] self.fields[j]).is_scalar() && self.fields[j].name@
                        == name@),
            decreases self.fields.len() - i,
        {
            if self.fields[i].is_scalar() && same_text(self.fields[i].name.as_str(), name) {
                proof {
                    lemma_scalar_position(self.fields@, name@, i as int);
                }
                return Ok(&self.fields[i]);
            }
            i = i + 1;
        }
        proof {
            lemma_scalar_position(self.fields@, name@, i as int);
        }
        Err(Error::NotFound(String::from_str("The model has no scalar field of that name.")))
    }

    /// The primary identifier of the model.
    pub fn id(&self) -> (r: &Field)
        requires
            self.wf(),
        ensures
            0 <= id_position(self.fields@) < self.fields.len(),
            *r == self.fields[id_position(self.fields@) as int],
            r.is_id(),
    {
        proof {
            lemma_id_exists(self.fields@);
        }
        let mut i: usize = 0;
        while !self.fields[i].is_id()
            invariant
                i < self.fields.len(),
                id_position(self.fields@) < self.fields.len(),
                forall|j: int| 0 <= j < i ==> !(#[trigger] self.fields[j]).is_id(),
            decreases self.fields.len() - i,
        {
            proof {
                if i + 1 == self.fields.len() {
                    lemma_id_position(self.fields@, i + 1);
                }
            }
            i = i + 1;
        }
        proof {
            lemma_id_position(self.fields@, i as int);
        }
        &self.fields[i]
    }
}

/// Whether every model is well formed.
pub open spec fn all_wf(models: Seq<Model>) -> bool {
    forall|i: int| 0 <= i < models.len() ==> (#[trigger] models[i]).wf()
}

impl Schema {
    /// The models of the schema, in their order.
    pub open spec fn spec_models(&self) -> Seq<Model> {
        Seq::new(self.models.len() as nat, |i: int| *self.models[i])
    }

    /// A schema is well formed where each of its models is.
    pub open spec fn wf(&self) -> bool {
        all_wf(self.spec_models())
    }

    /// The first model called `name`.
    pub fn find_model(&self, name: &str) -> (r: Result<ModelRef, Error>)
        ensures
            match r {
                Ok(model) => {
                    &&& model_position(self.spec_models(), name@) < self.models.len()
                    &&& *model == self.spec_models()[model_position(self.spec_models(), name@) as int]
                },
                Err(e) => {
                    &&& model_position(self.spec_models(), name@) == self.models.len()
                    &&& e.kind() == ErrorKind::NotFound
                },
            },
    {
        let ghost models = self.spec_models();
        let mut i: usize = 0;
        while i < self.models.len()
            invariant
                i <= self.models.len(),
                models == self.spec_models(),
                forall|j: int| 0 <= j < i ==> (#[trigger] models[j]).name@ != name@,
            decreases self.models.len() - i,
        {
            if same_text(self.models[i].name.as_str(), name) {
                proof {
                    lemma_model_position(models, name@, i as int);
                }
                return Ok(self.models[i].clone());
            }
            i = i + 1;
        }
        proof {
            lemma_model_position(models, name@, i as int);
        }
        Err(Error::NotFound(String::from_str("The schema has no model of that name.")))
    }
}

impl SchemaTemplate {
    /// A description is valid where each of its models is well formed.
    pub open spec fn valid(&self) -> bool {
        all_wf(self.models@)
    }

    /// Builds the schema of the project `project_id`: the models of the
    /// description in their order. An invalid description is refused.
    pub fn build(self, project_id: String) -> (r: Result<Schema, Error>)
        ensures
            match r {
                Ok(schema) => {
                    &&& self.valid()
                    &&& schema.project_id == project_id
                    &&& schema.spec_models() == self.models@
                },
                Err(e) => !self.valid() && e.kind() == ErrorKind::InvalidInput,
            },
    {
        let mut models: Vec<ModelRef> = Vec::new();
        for model in it: self.models
            invariant
                it.seq() == self.models@,
                models.len() == it.index(),
                forall|j: int| 0 <= j < it.index() ==> *(#[trigger] models[j]) == self.models[j],
                forall|j: int| 0 <= j < it.index() ==> (#[trigger] self.models[j]).wf(),
        {
            if !model.is_wf() {
                return Err(
                    Error::InvalidInput(
                        String::from_str("A model needs exactly one identifier field."),
                    ),
                );
            }
            models.push(Arc::new(model));
        }
        let schema = Schema { project_id, models };
        Ok(schema)
    }
}

} // verus!
