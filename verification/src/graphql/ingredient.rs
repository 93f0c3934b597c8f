//! Ingredients of the API. An identifier is the 128 bits of a UUID
//! (`uuid::Uuid::as_u128`); an amount, a floating-point number, is held as
//! its IEEE-754 bit pattern (`f64::to_bits`).
use vstd::prelude::*;
use crate::validators::{byte_len, lemma_byte_len_zero_iff_empty, min_length, min_length_message, InputError};

verus! {

/// A stored ingredient.
#[derive(Debug)]
pub struct Ingredient {
    pub id: u128,
    pub label: String,
    /// Bit pattern of the `f64` amount.
    pub amount: Option<u64>,
    pub unit: Option<String>,
}

/// An ingredient given as input. Its label must not be empty
/// (`min_length = 1`).
#[derive(Debug)]
pub struct NewIngredient {
    pub label: String,
    /// Bit pattern of the `f64` amount.
    pub amount: Option<u64>,
    pub unit: Option<String>,
}

/// The ingredient that the input `new` becomes when stored under `id`.
pub open spec fn ingredient_of_new(new: NewIngredient, id: u128) -> Ingredient {
    Ingredient { id: id, label: new.label, amount: new.amount, unit: new.unit }
}

impl NewIngredient {
    /// The ingredient that `self` becomes when stored under `id`.
    pub fn into_ingredient(self, id: u128) -> (r: Ingredient)
        ensures
            r == ingredient_of_new(self, id),
            r.id == id,
            r.label == self.label,
            r.amount == self.amount,
            r.unit == self.unit,
    {
        Ingredient { id, label: self.label, amount: self.amount, unit: self.unit }
    }

    /// Checks the input with the rule `min_length = 1` on the label: an
    /// empty label is refused, with the message of a string of length 0.
    pub fn validate(&self) -> (r: Result<(), InputError>)
        requires
            byte_len(self.label@) <= usize::MAX,
        ensures
            r is Ok <==> self.label@.len() > 0,
            r matches Err(e) ==> e.message@ == min_length_message(0, 1),
    {
        proof {
            lemma_byte_len_zero_iff_empty(self.label@);
        }
        min_length(self.label.as_str(), 1)
    }
}

} // verus!
