//! The root of the queries.
use vstd::prelude::*;
use crate::graphql::VERSION;

verus! {

/// The root of the queries: the general ones.
#[derive(Default)]
pub struct QueryRoot(pub GeneralQuery);

/// Queries about the API itself.
#[derive(Default)]
pub struct GeneralQuery;

impl GeneralQuery {
    /// The version of the cocktail API: the version of this package.
    pub fn api_version(&self) -> (r: &'static str)
        ensures
            r@ == VERSION@,
    {
        VERSION
    }
}

} // verus!
