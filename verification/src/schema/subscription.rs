//! Subscriptions of the schema: none are offered yet.
use vstd::prelude::*;

verus! {

/// The root of the subscriptions.
pub struct Subscription;

impl Subscription {
    /// The placeholder subscription, which yields nothing.
    pub fn unimplemented() -> (r: Option<&'static str>)
        ensures
            r is None,
    {
        None
    }
}

} // verus!
