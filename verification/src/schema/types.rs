//! Records of the schema. Identifiers are the 128 bits of a UUID
//! (`uuid::Uuid::as_u128`); a timestamp is a
//! [`Timestamp`]; an ingredient amount, a floating-point number, is held as
//! its IEEE-754 bit pattern (`f64::to_bits`), which the library carries
//! unchanged and never computes on.
use vstd::prelude::*;
use crate::clock::Timestamp;

verus! {

/// The input of the `createCocktail` mutation.
#[derive(Debug)]
pub struct NewCocktail {
    pub name: String,
    pub author_id: u128,
    pub source: Option<String>,
    pub ingredients: Vec<NewIngredient>,
}

/// A stored cocktail.
#[derive(Debug)]
pub struct Cocktail {
    pub id: u128,
    pub name: String,
    pub author: User,
    pub source: Option<String>,
    pub date_added: Timestamp,
    pub ingredients: Vec<Ingredient>,
}

/// A user, the author of cocktails.
#[derive(Debug)]
pub struct User {
    pub name: String,
    pub id: u128,
}

/// An ingredient of a new cocktail.
#[derive(Debug)]
pub struct NewIngredient {
    pub label: String,
    /// Bit pattern of the `f64` amount.
    pub amount: Option<u64>,
    pub unit: Option<String>,
    pub ingredient_type_id: Option<u128>,
}

/// An ingredient of a stored cocktail.
#[derive(Debug)]
pub struct Ingredient {
    pub label: String,
    /// Bit pattern of the `f64` amount.
    pub amount: Option<u64>,
    pub unit: Option<String>,
    pub ingredient_type: Option<IngredientType>,
}

/// The input of the `createIngredientType` mutation.
#[derive(Debug)]
pub struct NewIngredientType {
    pub label: String,
}

/// A stored ingredient type.
#[derive(Debug)]
pub struct IngredientType {
    pub id: u128,
    pub label: String,
}

} // verus!
