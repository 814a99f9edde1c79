//! A recipe catalog: the typed recipe model, its mapping to and from store
//! documents, the error taxonomy, and the resolution of the catalog's queries.

pub mod error;
pub mod model;
pub mod document;
pub mod query;
