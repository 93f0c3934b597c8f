//! Queries of the schema that need no database.
use vstd::prelude::*;

use crate::graphql::VERSION;

verus! {

/// The root of the queries.
pub struct Query;

impl Query {
    /// The version of the API: the version of this package.
    pub fn apiVersion() -> (r: &'static str)
        ensures
            r@ == VERSION@,
    {
        VERSION
    }
}

} // verus!
