//! The records and resolvers of the async-graphql API backed by SQLite.
use vstd::prelude::*;

pub mod cocktail;
pub mod ingredient;
pub mod query;
pub mod mutation;

verus! {

/// The version of this package, which the API reports.
pub const VERSION: &'static str = "0.1.0";

} // verus!
