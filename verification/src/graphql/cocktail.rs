//! Cocktails of the API, each with its ingredients. Identifiers are the 128
//! bits of a UUID (`uuid::Uuid::as_u128`).
use vstd::prelude::*;
use crate::graphql::ingredient::{ingredient_of_new, Ingredient, NewIngredient};
use crate::ids::{fresh_id, is_v4_uuid};
use crate::validators::{byte_len, min_length_message, InputError};

verus! {

/// A stored cocktail with its ingredients.
#[derive(Debug)]
pub struct Cocktail {
    pub id: u128,
    pub name: String,
    pub ingredients: Vec<Ingredient>,
}

/// The input of the `createCocktail` mutation. Its name and the label of
/// each of its ingredients must not be empty (`min_length = 1`).
#[derive(Debug)]
pub struct NewCocktail {
    pub name: String,
    pub ingredients: Vec<NewIngredient>,
}

/// The input `new` is accepted: its name and every ingredient label are not
/// empty.
pub open spec fn new_cocktail_valid(new: NewCocktail) -> bool {
    &&& new.name@.len() > 0
    &&& forall|i: int| 0 <= i < new.ingredients@.len() ==> #[trigger] new.ingredients@[i].label@.len() > 0
}

/// The strings of `new` fit in memory: none is longer than `usize::MAX`
/// bytes (a machine limit that every string in memory meets).
pub open spec fn new_cocktail_fits(new: NewCocktail) -> bool {
    &&& byte_len(new.name@) <= usize::MAX
    &&& forall|i: int|
        0 <= i < new.ingredients@.len() ==> byte_len(#[trigger] new.ingredients@[i].label@)
            <= usize::MAX
}

/// `c` is `new` stored under `id`, its ingredients under `ingredient_ids`
/// in order.
pub open spec fn is_cocktail_of(c: Cocktail, new: NewCocktail, id: u128, ingredient_ids: Seq<u128>) -> bool {
    &&& c.id == id
    &&& c.name == new.name
    &&& c.ingredients@.len() == new.ingredients@.len()
    &&& forall|i: int|
        0 <= i < new.ingredients@.len() ==> #[trigger] c.ingredients@[i] == ingredient_of_new(
            new.ingredients@[i],
            ingredient_ids[i],
        )
}

/// A stored cocktail keeps its input: the given identifiers, the input's
/// name, and per ingredient, in order, the input's label, amount and unit
/// unchanged, whatever the other fields hold.
pub proof fn lemma_stored_cocktail_keeps_input(
    c: Cocktail,
    new: NewCocktail,
    id: u128,
    ingredient_ids: Seq<u128>,
)
    requires
        is_cocktail_of(c, new, id, ingredient_ids),
    ensures
        c.id == id,
        c.name == new.name,
        c.ingredients@.len() == new.ingredients@.len(),
        forall|i: int|
            0 <= i < new.ingredients@.len() ==> {
                &&& #[trigger] c.ingredients@[i].id == ingredient_ids[i]
                &&& c.ingredients@[i].label == new.ingredients@[i].label
                &&& c.ingredients@[i].amount == new.ingredients@[i].amount
                &&& c.ingredients@[i].unit == new.ingredients@[i].unit
            },
{
    assert forall|i: int| 0 <= i < new.ingredients@.len() implies {
        &&& #[trigger] c.ingredients@[i].id == ingredient_ids[i]
        &&& c.ingredients@[i].label == new.ingredients@[i].label
        &&& c.ingredients@[i].amount == new.ingredients@[i].amount
        &&& c.ingredients@[i].unit == new.ingredients@[i].unit
    } by {
        assert(c.ingredients@[i] == ingredient_of_new(new.ingredients@[i], ingredient_ids[i]));
    }
}

impl NewCocktail {
    /// The cocktail that `self` becomes when stored under `id`, its
    /// ingredients under `ingredient_ids`, one per ingredient in order.
    pub fn into_cocktail(self, id: u128, ingredient_ids: Vec<u128>) -> (r: Cocktail)
        requires
            ingredient_ids@.len() == self.ingredients@.len(),
        ensures
            is_cocktail_of(r, self, id, ingredient_ids@),
    {
        let ghost whole = self;
        let NewCocktail { name, ingredients } = self;
        let mut rest = ingredients;
        let mut stored: Vec<Ingredient> = Vec::new();
        let n = rest.len();
        while rest.len() > 0
            invariant
                n == whole.ingredients@.len(),
                n == ingredient_ids@.len(),
                stored@.len() + rest@.len() == n,
                rest@ == whole.ingredients@.skip(stored@.len() as int),
                forall|i: int|
                    0 <= i < stored@.len() ==> #[trigger] stored@[i] == ingredient_of_new(
                        whole.ingredients@[i],
                        ingredient_ids@[i],
                    ),
            decreases rest@.len(),
        {
            let k = stored.len();
            let next = rest.remove(0);
            assert(next == whole.ingredients@[k as int]);
            stored.push(next.into_ingredient(ingredient_ids[k]));
            assert(rest@ =~= whole.ingredients@.skip(stored@.len() as int));
        }
        Cocktail { id, name, ingredients: stored }
    }

    /// Checks the input with the rule `min_length = 1` on the name and then
    /// on each ingredient label in order: an empty one is refused, with the
    /// message of a string of length 0.
    pub fn validate(&self) -> (r: Result<(), InputError>)
        requires
            new_cocktail_fits(*self),
        ensures
            r is Ok <==> new_cocktail_valid(*self),
            r matches Err(e) ==> e.message@ == min_length_message(0, 1),
    {
        proof {
            crate::validators::lemma_byte_len_zero_iff_empty(self.name@);
        }
        match crate::validators::min_length(self.name.as_str(), 1) {
            Ok(()) => {},
            Err(e) => return Err(e),
        }
        let n = self.ingredients.len();
        for i in 0..n
            invariant
                n == self.ingredients@.len(),
                new_cocktail_fits(*self),
                self.name@.len() > 0,
                forall|j: int| 0 <= j < i ==> #[trigger] self.ingredients@[j].label@.len() > 0,
        {
            assert(byte_len(self.ingredients@[i as int].label@) <= usize::MAX);
            match self.ingredients[i].validate() {
                Ok(()) => {},
                Err(e) => return Err(e),
            }
        }
        Ok(())
    }
}

/// The mutations of cocktails.
#[derive(Default)]
pub struct CocktailMutation;

impl CocktailMutation {
    /// Creates a cocktail from `new_cocktail` under the identifier `id`, its
    /// ingredients under `ingredient_ids`: the input is checked, and the
    /// cocktail whose rows are inserted and which is returned is
    /// `new_cocktail` stored under these identifiers.
    pub fn create_cocktail_with(
        &self,
        new_cocktail: NewCocktail,
        id: u128,
        ingredient_ids: Vec<u128>,
    ) -> (r: Result<Cocktail, InputError>)
        requires
            new_cocktail_fits(new_cocktail),
            ingredient_ids@.len() == new_cocktail.ingredients@.len(),
        ensures
            r is Ok <==> new_cocktail_valid(new_cocktail),
            r matches Ok(c) ==> is_cocktail_of(c, new_cocktail, id, ingredient_ids@),
            r matches Err(e) ==> e.message@ == min_length_message(0, 1),
    {
        match new_cocktail.validate() {
            Ok(()) => Ok(new_cocktail.into_cocktail(id, ingredient_ids)),
            Err(e) => Err(e),
        }
    }

    /// Creates a cocktail from `new_cocktail` under fresh random version-4
    /// identifiers, one for the cocktail and one per ingredient; the rest is
    /// [`CocktailMutation::create_cocktail_with`].
    pub fn create_cocktail(&self, new_cocktail: NewCocktail) -> (r: Result<Cocktail, InputError>)
        requires
            new_cocktail_fits(new_cocktail),
        ensures
            r is Ok <==> new_cocktail_valid(new_cocktail),
            r matches Ok(c) ==> exists|ids: Seq<u128>|
                {
                    &&& is_v4_uuid(c.id)
                    &&& ids.len() == new_cocktail.ingredients@.len()
                    &&& forall|i: int| 0 <= i < ids.len() ==> is_v4_uuid(#[trigger] ids[i])
                    &&& is_cocktail_of(c, new_cocktail, c.id, ids)
                },
            r matches Err(e) ==> e.message@ == min_length_message(0, 1),
    {
        let id = fresh_id();
        let n = new_cocktail.ingredients.len();
        let mut ingredient_ids: Vec<u128> = Vec::new();
        for i in 0..n
            invariant
                ingredient_ids@.len() == i,
                forall|j: int| 0 <= j < i ==> is_v4_uuid(#[trigger] ingredient_ids@[j]),
        {
            ingredient_ids.push(fresh_id());
        }
        let ghost ids = ingredient_ids@;
        let r = self.create_cocktail_with(new_cocktail, id, ingredient_ids);
        proof {
            if r is Ok {
                assert(is_cocktail_of(r->Ok_0, new_cocktail, id, ids));
            }
        }
        r
    }
}

} // verus!
