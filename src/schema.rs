//! The roots of the GraphQL schemas. The resolvers are attached to them where
//! the schemas are built, outside this library.

use vstd::prelude::*;

verus! {

/// The root of the queries of the public schema: tags, tag by id, tag by
/// name, todos, todo by id.
#[derive(Clone, Copy, Debug, Default, PartialEq, Eq)]
pub struct QueryRoot {}

/// The root of the mutations of the public schema: create, update and remove
/// tags and todos.
#[derive(Clone, Copy, Debug, Default, PartialEq, Eq)]
pub struct MutationRoot {}

/// The root of the queries of the secured schema: those of the public schema
/// and those only the secured API offers.
#[derive(Clone, Copy, Debug, Default, PartialEq, Eq)]
pub struct PrivateQueryRoot {}

/// The root of the mutations of the secured schema: those of the public
/// schema and those only the secured API offers.
#[derive(Clone, Copy, Debug, Default, PartialEq, Eq)]
pub struct PrivateMutationRoot {}

/// Builds a schema from its roots, with the application state as its data.
#[derive(Clone, Copy, Debug, Default, PartialEq, Eq)]
pub struct SchemaBuilder {}

} // verus!
