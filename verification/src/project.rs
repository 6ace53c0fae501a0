//! A project and the schema it owns.

use crate::error::{Error, ErrorKind};
use crate::schema::{Schema, SchemaRef, SchemaTemplate};
use once_cell::unsync::OnceCell;
use std::sync::Arc;
use vstd::prelude::*;

verus! {

pub type ProjectRef = Arc<Project>;

/// `once_cell::unsync::OnceCell`: a cell that is empty or holds a value, and
/// is written at most once.
#[verifier::external_type_specification]
#[verifier::external_body]
#[verifier::reject_recursive_types(T)]
pub struct ExOnceCell<T>(OnceCell<T>);

/// What a schema slot holds: nothing before it is written, the schema ever
/// after.
pub uninterp spec fn slot_value(cell: OnceCell<SchemaRef>) -> Option<SchemaRef>;

/// Makes an empty slot with `OnceCell::new`.
#[verifier::external_body]
fn empty_slot() -> (cell: OnceCell<SchemaRef>)
    ensures
        slot_value(cell) is None,
{
    OnceCell::new()
}

/// Writes a slot with `OnceCell::set`, which fills an empty cell and returns
/// `Ok`, and leaves a full cell as it is and hands the value back in `Err`.
/// The slot is taken by unique reference, so that no slot changes while it is
/// shared.
#[verifier::external_body]
fn write_slot(cell: &mut OnceCell<SchemaRef>, schema: SchemaRef) -> (r: Result<(), SchemaRef>)
    ensures
        r is Ok <==> slot_value(*old(cell)) is None,
        r is Ok ==> slot_value(*final(cell)) == Some(schema),
        r matches Err(back) ==> back == schema,
        r is Err ==> slot_value(*final(cell)) == slot_value(*old(cell)),
{
    cell.set(schema)
}

/// Reads a slot with `OnceCell::get`, which returns the value of a full cell
/// and `None` for an empty one.
#[verifier::external_body]
fn read_slot(cell: &OnceCell<SchemaRef>) -> (r: Option<&SchemaRef>)
    ensures
        r is Some == slot_value(*cell) is Some,
        r matches Some(schema) ==> Some(*schema) == slot_value(*cell),
{
    cell.get()
}

/// The revision of a project: a positive number, 1 unless stated.
#[derive(Clone, Copy, Debug, PartialEq, Eq)]
pub struct Revision(u32);

impl Revision {
    #[verifier::type_invariant]
    spec fn positive(self) -> bool {
        self.0 >= 1
    }

    /// The number of the revision.
    pub closed spec fn spec_value(self) -> u32 {
        self.0
    }

    /// The revision of that number, unless the number is zero.
    pub fn new(value: u32) -> (r: Option<Revision>)
        ensures
            r is Some <==> value >= 1,
            r matches Some(revision) ==> revision.spec_value() == value,
    {
        if value >= 1 {
            Some(Revision(value))
        } else {
            None
        }
    }

    #[verifier::when_used_as_spec(spec_value)]
    pub fn value(self) -> (r: u32)
        ensures
            r == self.spec_value(),
            r >= 1,
    {
        proof {
            use_type_invariant(self);
        }
        self.0
    }
}

impl Default for Revision {
    fn default() -> (r: Self)
        ensures
            r.spec_value() == 1,
    {
        Revision(1)
    }
}

/// A switch that is on unless stated.
#[derive(Clone, Copy, Debug, PartialEq, Eq, Structural)]
pub struct DefaultTrue(pub bool);

impl Default for DefaultTrue {
    fn default() -> (r: Self)
        ensures
            r == DefaultTrue(true),
    {
        DefaultTrue(true)
    }
}

/// How a server-side function is delivered.
#[derive(Clone, Copy, Debug, PartialEq, Eq, Structural)]
pub enum FunctionDelivery {
    WebhookDelivery,
}

/// What a server-side function is.
#[derive(Clone, Copy, Debug, PartialEq, Eq, Structural)]
pub enum FunctionType {
    ServerSideSubscription,
}

/// A server-side function of a project.
#[derive(Debug, PartialEq, Eq)]
pub struct Function {
    pub name: String,
    pub is_active: bool,
    pub delivery: FunctionDelivery,
    pub type_code: FunctionType,
}

/// The names that a project states for its database and its schema, where it
/// states any.
#[derive(Debug, PartialEq, Eq)]
pub struct ProjectManifestation {
    pub database: Option<String>,
    pub schema: Option<String>,
}

impl Default for ProjectManifestation {
    fn default() -> (r: Self)
        ensures
            r.database is None,
            r.schema is None,
    {
        ProjectManifestation { database: None, schema: None }
    }
}

/// The description of a project, as decoded.
#[derive(Debug)]
pub struct ProjectTemplate {
    pub id: String,
    pub schema: SchemaTemplate,
    pub functions: Vec<Function>,
    pub manifestation: ProjectManifestation,
    pub revision: Revision,
    pub secrets: Vec<String>,
    pub allow_queries: DefaultTrue,
    pub allow_mutations: DefaultTrue,
}

/// A project. Its schema is written once, when the project is built, and
/// only read afterwards.
#[derive(Debug)]
pub struct Project {
    pub id: String,
    pub schema: OnceCell<SchemaRef>,
    pub functions: Vec<Function>,
    pub manifestation: ProjectManifestation,
    pub revision: Revision,
    pub secrets: Vec<String>,
    pub allow_queries: DefaultTrue,
    pub allow_mutations: DefaultTrue,
}

impl Project {
    /// The schema of the project, once it is written.
    pub open spec fn spec_schema(&self) -> Option<Schema> {
        match slot_value(self.schema) {
            Some(schema) => Some(*schema),
            None => None,
        }
    }

    /// A project is well formed where its schema is written and well formed,
    /// and refers back to the project.
    pub open spec fn wf(&self) -> bool {
        &&& self.spec_schema() matches Some(schema)
        &&& schema.wf()
        &&& schema.project_id@ == self.id@
    }

    /// The name of the project's database: the schema name that the project
    /// states, else the database name that it states, else its id.
    pub open spec fn spec_db_name(&self) -> Seq<char> {
        match self.manifestation.schema {
            Some(schema) => schema@,
            None => match self.manifestation.database {
                Some(database) => database@,
                None => self.id@,
            },
        }
    }

    /// The name of the project's database.
    pub fn db_name(&self) -> (r: &str)
        ensures
            r@ == self.spec_db_name(),
    {
        match &self.manifestation.schema {
            Some(schema) => schema.as_str(),
            None => match &self.manifestation.database {
                Some(database) => database.as_str(),
                None => self.id.as_str(),
            },
        }
    }

    /// The schema of the project.
    pub fn schema(&self) -> (r: &Schema)
        requires
            self.wf(),
        ensures
            Some(*r) == self.spec_schema(),
    {
        read_slot(&self.schema).unwrap()
    }
}

impl ProjectTemplate {
    /// Whether `project` is what this description builds: a well-formed
    /// project with the id, the functions and the settings of the
    /// description, whose schema holds the models of the description.
    pub open spec fn builds(&self, project: Project) -> bool {
        &&& project.wf()
        &&& project.id == self.id
        &&& project.functions == self.functions
        &&& project.manifestation == self.manifestation
        &&& project.revision == self.revision
        &&& project.secrets == self.secrets
        &&& project.allow_queries == self.allow_queries
        &&& project.allow_mutations == self.allow_mutations
        &&& project.spec_schema().unwrap().spec_models() == self.schema.models@
    }

    /// Builds the project: the project with an empty schema slot first, then
    /// the schema with a reference back to it, which is written into the
    /// slot. Fails where the description of the schema is invalid.
    pub fn build(self) -> (r: Result<ProjectRef, Error>)
        ensures
            match r {
                Ok(project) => self.schema.valid() && self.builds(*project),
                Err(e) => !self.schema.valid() && e.kind() == ErrorKind::InvalidInput,
            },
    {
        let back_reference = self.id.clone();
        let mut project = Project {
            id: self.id,
            schema: empty_slot(),
            functions: self.functions,
            manifestation: self.manifestation,
            revision: self.revision,
            secrets: self.secrets,
            allow_queries: self.allow_queries,
            allow_mutations: self.allow_mutations,
        };
        match self.schema.build(back_reference) {
            Err(e) => Err(e),
            Ok(schema) => {
                write_slot(&mut project.schema, Arc::new(schema)).unwrap();
                Ok(Arc::new(project))
            },
        }
    }
}

} // verus!
