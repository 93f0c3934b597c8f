//! The records of the juniper GraphQL schema that is backed by PostgreSQL,
//! and its plain resolvers.
pub mod types;
pub mod query;
pub mod subscription;
