//! Translation of wire-format query filters into backend-neutral condition
//! trees, together with the project and schema model the translation relies on.

pub mod condition;
pub mod error;
pub mod filter;
pub mod project;
pub mod query_arguments;
pub mod schema;
pub mod select;
pub mod text;
pub mod value;
