//! The cocktail catalogue of the juniper schema with numeric identifiers:
//! cocktails with ingredients, instructions and ratings, and the input
//! records they are made from. An ingredient amount, a floating-point number,
//! is held as its IEEE-754 bit pattern (`f64::to_bits`).
use vstd::prelude::*;
use vstd::std_specs::convert::FromSpecImpl;

verus! {

/// A cocktail of the catalogue.
#[derive(Debug)]
pub struct Cocktail {
    pub id: i32,
    pub name: String,
    pub date_added: i32,
    pub source: Option<String>,
    pub author: String,
    pub ingredients: Vec<CocktailIngredient>,
    pub instructions: Vec<String>,
    pub ratings: Vec<Rating>,
}

/// The input a cocktail is made from.
#[derive(Debug)]
pub struct NewCocktail {
    pub name: String,
    pub source: Option<String>,
    pub author: String,
    pub ingredients: Vec<CocktailIngredientInput>,
    pub instructions: Vec<String>,
    pub ratings: Vec<NewRating>,
}

/// An ingredient of a cocktail.
#[derive(Debug)]
pub struct CocktailIngredient {
    pub label: String,
    /// Bit pattern of the `f64` amount.
    pub amount: Option<u64>,
    pub unit: Option<String>,
    pub ingredient_type: Option<String>,
}

/// An ingredient given as input.
#[derive(Debug)]
pub struct CocktailIngredientInput {
    pub label: String,
    /// Bit pattern of the `f64` amount.
    pub amount: Option<u64>,
    pub unit: Option<String>,
    pub ingredient_type: Option<String>,
}

/// A rating of a cocktail by an author.
#[derive(Debug)]
pub struct Rating {
    pub rating: i32,
    pub author: String,
}

/// A rating given as input.
#[derive(Debug)]
pub struct NewRating {
    pub rating: i32,
    pub author: String,
}

/// The ingredient made from the input `ing`: the same fields.
pub open spec fn ingredient_of_input(ing: CocktailIngredientInput) -> CocktailIngredient {
    CocktailIngredient {
        label: ing.label,
        amount: ing.amount,
        unit: ing.unit,
        ingredient_type: ing.ingredient_type,
    }
}

/// The rating made from the input `r`: the same fields.
pub open spec fn rating_of_input(r: NewRating) -> Rating {
    Rating { rating: r.rating, author: r.author }
}

/// The cocktail made from `new` under the identifier `id`, added at
/// `date_added`.
pub open spec fn is_cocktail_of(c: Cocktail, new: NewCocktail, id: i32, date_added: i32) -> bool {
    &&& c.id == id
    &&& c.date_added == date_added
    &&& c.name == new.name
    &&& c.source == new.source
    &&& c.author == new.author
    &&& c.ingredients@ == new.ingredients@.map_values(|i: CocktailIngredientInput| ingredient_of_input(i))
    &&& c.instructions@ == new.instructions@
    &&& c.ratings@ == new.ratings@.map_values(|r: NewRating| rating_of_input(r))
}

impl From<CocktailIngredientInput> for CocktailIngredient {
    fn from(ing: CocktailIngredientInput) -> (r: CocktailIngredient)
        ensures
            r.label == ing.label,
            r.amount == ing.amount,
            r.unit == ing.unit,
            r.ingredient_type == ing.ingredient_type,
    {
        CocktailIngredient {
            label: ing.label,
            amount: ing.amount,
            unit: ing.unit,
            ingredient_type: ing.ingredient_type,
        }
    }
}

impl FromSpecImpl<CocktailIngredientInput> for CocktailIngredient {
    open spec fn obeys_from_spec() -> bool {
        true
    }

    open spec fn from_spec(ing: CocktailIngredientInput) -> CocktailIngredient {
        ingredient_of_input(ing)
    }
}

impl From<NewRating> for Rating {
    fn from(rating: NewRating) -> (r: Rating)
        ensures
            r.rating == rating.rating,
            r.author == rating.author,
    {
        Rating { rating: rating.rating, author: rating.author }
    }
}

impl FromSpecImpl<NewRating> for Rating {
    open spec fn obeys_from_spec() -> bool {
        true
    }

    open spec fn from_spec(rating: NewRating) -> Rating {
        rating_of_input(rating)
    }
}

/// A copy of an optional string.
fn copy_opt_string(s: &Option<String>) -> (r: Option<String>)
    ensures
        r == *s,
{
    match s {
        Some(t) => Some(t.clone()),
        None => None,
    }
}

/// A copy of a list of strings.
fn copy_strings(v: &Vec<String>) -> (r: Vec<String>)
    ensures
        r@ == v@,
{
    let mut out: Vec<String> = Vec::new();
    let n = v.len();
    for i in 0..n
        invariant
            n == v@.len(),
            out@ == v@.subrange(0, i as int),
    {
        out.push(v[i].clone());
        assert(out@ =~= v@.subrange(0, i + 1));
    }
    assert(out@ =~= v@);
    out
}

impl CocktailIngredientInput {
    /// A copy of the input.
    fn copy(&self) -> (r: CocktailIngredientInput)
        ensures
            r == *self,
    {
        CocktailIngredientInput {
            label: self.label.clone(),
            amount: self.amount,
            unit: copy_opt_string(&self.unit),
            ingredient_type: copy_opt_string(&self.ingredient_type),
        }
    }
}

impl NewRating {
    /// A copy of the input.
    fn copy(&self) -> (r: NewRating)
        ensures
            r == *self,
    {
        NewRating { rating: self.rating, author: self.author.clone() }
    }
}

impl NewCocktail {
    /// The cocktail made from this input under the identifier `id`, added at
    /// `date_added`: its name, source, author and instructions, each
    /// ingredient and each rating made from the input's, in order.
    pub fn to_cocktail(&self, id: i32, date_added: i32) -> (r: Cocktail)
        ensures
            is_cocktail_of(r, *self, id, date_added),
    {
        let mut ingredients: Vec<CocktailIngredient> = Vec::new();
        let n = self.ingredients.len();
        for i in 0..n
            invariant
                n == self.ingredients@.len(),
                ingredients@ == self.ingredients@.subrange(0, i as int).map_values(
                    |x: CocktailIngredientInput| ingredient_of_input(x),
                ),
        {
            let ing = CocktailIngredient::from(self.ingredients[i].copy());
            ingredients.push(ing);
            assert(ingredients@ =~= self.ingredients@.subrange(0, i + 1).map_values(
                |x: CocktailIngredientInput| ingredient_of_input(x),
            ));
        }
        assert(self.ingredients@.subrange(0, n as int) =~= self.ingredients@);
        let mut ratings: Vec<Rating> = Vec::new();
        let m = self.ratings.len();
        for j in 0..m
            invariant
                m == self.ratings@.len(),
                ratings@ == self.ratings@.subrange(0, j as int).map_values(
                    |x: NewRating| rating_of_input(x),
                ),
        {
            let r = Rating::from(self.ratings[j].copy());
            ratings.push(r);
            assert(ratings@ =~= self.ratings@.subrange(0, j + 1).map_values(
                |x: NewRating| rating_of_input(x),
            ));
        }
        assert(self.ratings@.subrange(0, m as int) =~= self.ratings@);
        Cocktail {
            id,
            date_added,
            name: self.name.clone(),
            source: copy_opt_string(&self.source),
            author: self.author.clone(),
            ingredients,
            instructions: copy_strings(&self.instructions),
            ratings,
        }
    }
}

/// An ingredient made from an input has the input's label, amount, unit and
/// ingredient type, field for field, whatever the other fields hold.
pub proof fn lemma_ingredient_keeps_input(ing: CocktailIngredientInput)
    ensures
        ingredient_of_input(ing).label == ing.label,
        ingredient_of_input(ing).amount == ing.amount,
        ingredient_of_input(ing).unit == ing.unit,
        ingredient_of_input(ing).ingredient_type == ing.ingredient_type,
{
}

/// A rating made from an input has the input's rating and author.
pub proof fn lemma_rating_keeps_input(r: NewRating)
    ensures
        rating_of_input(r).rating == r.rating,
        rating_of_input(r).author == r.author,
{
}

/// A cocktail built from an input keeps all of it: the given identifier and
/// date, the input's name, source, author and instructions, and per
/// ingredient and per rating, in order, every field of the input's.
pub proof fn lemma_to_cocktail_keeps_input(c: Cocktail, new: NewCocktail, id: i32, date_added: i32)
    requires
        is_cocktail_of(c, new, id, date_added),
    ensures
        c.id == id,
        c.date_added == date_added,
        c.name == new.name,
        c.source == new.source,
        c.author == new.author,
        c.instructions@ == new.instructions@,
        c.ingredients@.len() == new.ingredients@.len(),
        forall|i: int|
            0 <= i < new.ingredients@.len() ==> {
                &&& #[trigger] c.ingredients@[i].label == new.ingredients@[i].label
                &&& c.ingredients@[i].amount == new.ingredients@[i].amount
                &&& c.ingredients@[i].unit == new.ingredients@[i].unit
                &&& c.ingredients@[i].ingredient_type == new.ingredients@[i].ingredient_type
            },
        c.ratings@.len() == new.ratings@.len(),
        forall|i: int|
            0 <= i < new.ratings@.len() ==> {
                &&& #[trigger] c.ratings@[i].rating == new.ratings@[i].rating
                &&& c.ratings@[i].author == new.ratings@[i].author
            },
{
    assert forall|i: int| 0 <= i < new.ingredients@.len() implies {
        &&& #[trigger] c.ingredients@[i].label == new.ingredients@[i].label
        &&& c.ingredients@[i].amount == new.ingredients@[i].amount
        &&& c.ingredients@[i].unit == new.ingredients@[i].unit
        &&& c.ingredients@[i].ingredient_type == new.ingredients@[i].ingredient_type
    } by {
        assert(c.ingredients@[i] == ingredient_of_input(new.ingredients@[i]));
    }
    assert forall|i: int| 0 <= i < new.ratings@.len() implies {
        &&& #[trigger] c.ratings@[i].rating == new.ratings@[i].rating
        &&& c.ratings@[i].author == new.ratings@[i].author
    } by {
        assert(c.ratings@[i] == rating_of_input(new.ratings@[i]));
    }
}

/// The root of the queries.
pub struct Query;

impl Query {
    /// The version of the API.
    pub fn apiVersion() -> (r: &'static str)
        ensures
            r@ == "0.1"@,
    {
        "0.1"
    }
}

} // verus!
