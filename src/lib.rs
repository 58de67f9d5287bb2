//! A GraphQL TodoMVC service core: records for tags and todos, the synthesis
//! of partial-update documents for the document store, and the decisions of
//! the bearer-token relay in front of the secured API.

pub mod auth;
pub mod schema;
pub mod site;
pub mod store;
pub mod tag;
pub mod todo;
pub mod update;
pub mod values;
