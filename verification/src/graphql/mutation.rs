//! The root of the mutations.
use vstd::prelude::*;
use crate::graphql::cocktail::CocktailMutation;

verus! {

/// The root of the mutations: those of cocktails.
#[derive(Default)]
pub struct MutationRoot(pub CocktailMutation);

} // verus!
