//! The writes of the PostgreSQL-backed schema, as plans and assemblies.
//!
//! Creating a cocktail reads its author, writes one row into `cocktails` and,
//! for each ingredient in order, reads its ingredient type and writes one row
//! into `ingredients`; the result is built from the rows that the database
//! hands back. The statements are run elsewhere; here stands what they write
//! and how their answers become the returned records.
use vstd::prelude::*;
use crate::clock::{utc_now, Timestamp};
use crate::ids::{fresh_id, is_v4_uuid};
use crate::schema::types::{
    Cocktail, Ingredient, IngredientType, NewCocktail, NewIngredient, NewIngredientType, User,
};

verus! {

/// A row of the `cocktails` table: what is written, and what the insert
/// returns (`RETURNING id, name, author_id, source, date_added`).
#[derive(Debug)]
pub struct CocktailRow {
    pub id: u128,
    pub name: String,
    pub author_id: u128,
    pub source: Option<String>,
    pub date_added: Timestamp,
}

/// A row written into the `ingredients` table.
#[derive(Debug)]
pub struct IngredientRow {
    pub cocktail_id: u128,
    pub label: String,
    /// Bit pattern of the `f64` amount.
    pub amount: Option<u64>,
    pub unit: Option<String>,
    pub ingredient_type_id: Option<u128>,
}

/// What the insert of an ingredient returns (`RETURNING label, amount, unit`).
#[derive(Debug)]
pub struct InsertedIngredient {
    pub label: String,
    /// Bit pattern of the `f64` amount.
    pub amount: Option<u64>,
    pub unit: Option<String>,
}

/// The database work of creating a cocktail: the author to read first, the
/// cocktail row, and the ingredient rows in the order of the input. Before
/// the insert of each ingredient row, the ingredient type with the row's
/// `ingredient_type_id` is read.
#[derive(Debug)]
pub struct CocktailInsertion {
    pub author_id: u128,
    pub cocktail: CocktailRow,
    pub ingredients: Vec<IngredientRow>,
}

/// The cocktail row written for `new` under the identifier `id`, added at
/// `date_added`.
pub open spec fn cocktail_row_of(new: NewCocktail, id: u128, date_added: Timestamp) -> CocktailRow {
    CocktailRow {
        id: id,
        name: new.name,
        author_id: new.author_id,
        source: new.source,
        date_added: date_added,
    }
}

/// The ingredient row written for `new` as part of the cocktail `cocktail_id`.
pub open spec fn ingredient_row_of(new: NewIngredient, cocktail_id: u128) -> IngredientRow {
    IngredientRow {
        cocktail_id: cocktail_id,
        label: new.label,
        amount: new.amount,
        unit: new.unit,
        ingredient_type_id: new.ingredient_type_id,
    }
}

/// `plan` is the work of creating `new` under `id` at `date_added`.
pub open spec fn is_insertion_of(
    plan: CocktailInsertion,
    new: NewCocktail,
    id: u128,
    date_added: Timestamp,
) -> bool {
    &&& plan.author_id == new.author_id
    &&& plan.cocktail == cocktail_row_of(new, id, date_added)
    &&& plan.ingredients@.len() == new.ingredients@.len()
    &&& forall|i: int|
        0 <= i < new.ingredients@.len() ==> #[trigger] plan.ingredients@[i] == ingredient_row_of(
            new.ingredients@[i],
            id,
        )
}

/// The ingredient built from what its insert returned and the ingredient type
/// read for it.
pub open spec fn ingredient_of(row: InsertedIngredient, ingredient_type: Option<IngredientType>) -> Ingredient {
    Ingredient {
        label: row.label,
        amount: row.amount,
        unit: row.unit,
        ingredient_type: ingredient_type,
    }
}

/// `c` is the cocktail built from the returned cocktail row, its author, and,
/// per ingredient in order, the returned ingredient row and its type.
pub open spec fn is_cocktail_from_rows(
    c: Cocktail,
    row: CocktailRow,
    author: User,
    parts: Seq<(InsertedIngredient, Option<IngredientType>)>,
) -> bool {
    &&& c.id == row.id
    &&& c.name == row.name
    &&& c.author == author
    &&& c.source == row.source
    &&& c.date_added == row.date_added
    &&& c.ingredients@.len() == parts.len()
    &&& forall|i: int|
        0 <= i < parts.len() ==> #[trigger] c.ingredients@[i] == ingredient_of(parts[i].0, parts[i].1)
}

/// What the insert of `row` returns where the database hands back what was
/// written.
pub open spec fn echo_of(row: IngredientRow) -> InsertedIngredient {
    InsertedIngredient { label: row.label, amount: row.amount, unit: row.unit }
}

/// The writes of a cocktail's creation carry its input: the author read
/// first and the cocktail row's author are the input's author, the cocktail
/// row has the given identifier and time and the input's name and source,
/// and each ingredient row, in order, has the input ingredient's label,
/// amount, unit and type identifier, under the cocktail's identifier.
pub proof fn lemma_plan_writes_input(
    plan: CocktailInsertion,
    new: NewCocktail,
    id: u128,
    date_added: Timestamp,
)
    requires
        is_insertion_of(plan, new, id, date_added),
    ensures
        plan.author_id == new.author_id,
        plan.cocktail.id == id,
        plan.cocktail.name == new.name,
        plan.cocktail.author_id == new.author_id,
        plan.cocktail.source == new.source,
        plan.cocktail.date_added == date_added,
        plan.ingredients@.len() == new.ingredients@.len(),
        forall|i: int|
            0 <= i < new.ingredients@.len() ==> {
                &&& #[trigger] plan.ingredients@[i].cocktail_id == id
                &&& plan.ingredients@[i].label == new.ingredients@[i].label
                &&& plan.ingredients@[i].amount == new.ingredients@[i].amount
                &&& plan.ingredients@[i].unit == new.ingredients@[i].unit
                &&& plan.ingredients@[i].ingredient_type_id == new.ingredients@[i].ingredient_type_id
            },
{
    assert forall|i: int| 0 <= i < new.ingredients@.len() implies {
        &&& #[trigger] plan.ingredients@[i].cocktail_id == id
        &&& plan.ingredients@[i].label == new.ingredients@[i].label
        &&& plan.ingredients@[i].amount == new.ingredients@[i].amount
        &&& plan.ingredients@[i].unit == new.ingredients@[i].unit
        &&& plan.ingredients@[i].ingredient_type_id == new.ingredients@[i].ingredient_type_id
    } by {
        assert(plan.ingredients@[i] == ingredient_row_of(new.ingredients@[i], id));
    }
}

/// The ingredient built from what its insert returned has the returned
/// label, amount and unit and the ingredient type read for it.
pub proof fn lemma_ingredient_of_returned(row: InsertedIngredient, ingredient_type: Option<IngredientType>)
    ensures
        ingredient_of(row, ingredient_type).label == row.label,
        ingredient_of(row, ingredient_type).amount == row.amount,
        ingredient_of(row, ingredient_type).unit == row.unit,
        ingredient_of(row, ingredient_type).ingredient_type == ingredient_type,
{
}

/// Every ingredient row of a cocktail's creation is written under the
/// identifier of the cocktail row, and carries the type identifier that is
/// read before it: that of the input ingredient at the same position.
pub proof fn lemma_ingredients_written_under_cocktail(
    plan: CocktailInsertion,
    new: NewCocktail,
    id: u128,
    date_added: Timestamp,
)
    requires
        is_insertion_of(plan, new, id, date_added),
    ensures
        forall|i: int|
            0 <= i < plan.ingredients@.len() ==> {
                &&& #[trigger] plan.ingredients@[i].cocktail_id == plan.cocktail.id
                &&& plan.ingredients@[i].ingredient_type_id == new.ingredients@[i].ingredient_type_id
            },
{
    assert forall|i: int| 0 <= i < plan.ingredients@.len() implies #[trigger] plan.ingredients@[i].cocktail_id
        == plan.cocktail.id by {
        assert(plan.ingredients@[i] == ingredient_row_of(new.ingredients@[i], id));
    }
}

/// A created cocktail reads back what was asked for: where the database hands
/// back the cocktail row and each ingredient row as they were written, the
/// returned cocktail has the planned identifier and time, the given author,
/// the input's name and source, and one ingredient per input ingredient, in
/// order, with its label, amount and unit and the ingredient type read for it.
pub proof fn lemma_created_cocktail_reads_back(
    new: NewCocktail,
    id: u128,
    date_added: Timestamp,
    plan: CocktailInsertion,
    author: User,
    returned: CocktailRow,
    parts: Seq<(InsertedIngredient, Option<IngredientType>)>,
    c: Cocktail,
)
    requires
        is_insertion_of(plan, new, id, date_added),
        returned == plan.cocktail,
        parts.len() == plan.ingredients@.len(),
        forall|i: int| 0 <= i < parts.len() ==> #[trigger] parts[i].0 == echo_of(plan.ingredients@[i]),
        is_cocktail_from_rows(c, returned, author, parts),
    ensures
        c.id == id,
        c.name == new.name,
        c.author == author,
        c.source == new.source,
        c.date_added == date_added,
        c.ingredients@.len() == new.ingredients@.len(),
        forall|i: int|
            0 <= i < new.ingredients@.len() ==> {
                &&& #[trigger] c.ingredients@[i].label == new.ingredients@[i].label
                &&& c.ingredients@[i].amount == new.ingredients@[i].amount
                &&& c.ingredients@[i].unit == new.ingredients@[i].unit
                &&& c.ingredients@[i].ingredient_type == parts[i].1
            },
{
    assert forall|i: int| 0 <= i < new.ingredients@.len() implies {
        &&& #[trigger] c.ingredients@[i].label == new.ingredients@[i].label
        &&& c.ingredients@[i].amount == new.ingredients@[i].amount
        &&& c.ingredients@[i].unit == new.ingredients@[i].unit
        &&& c.ingredients@[i].ingredient_type == parts[i].1
    } by {
        assert(plan.ingredients@[i] == ingredient_row_of(new.ingredients@[i], id));
        assert(parts[i].0 == echo_of(plan.ingredients@[i]));
        assert(c.ingredients@[i] == ingredient_of(parts[i].0, parts[i].1));
    }
}

/// The ingredient row written for `new` in the cocktail `cocktail_id`.
pub fn ingredient_row(new: NewIngredient, cocktail_id: u128) -> (r: IngredientRow)
    ensures
        r == ingredient_row_of(new, cocktail_id),
{
    IngredientRow {
        cocktail_id,
        label: new.label,
        amount: new.amount,
        unit: new.unit,
        ingredient_type_id: new.ingredient_type_id,
    }
}

/// The work of creating `new` under the identifier `id`, added at
/// `date_added`.
pub fn plan_new_cocktail_with(new: NewCocktail, id: u128, date_added: Timestamp) -> (r:
    CocktailInsertion)
    ensures
        is_insertion_of(r, new, id, date_added),
        r.author_id == new.author_id,
        r.cocktail.id == id,
        r.cocktail.name == new.name,
        r.cocktail.author_id == new.author_id,
        r.cocktail.source == new.source,
        r.cocktail.date_added == date_added,
{
    let ghost whole = new;
    let NewCocktail { name, author_id, source, ingredients } = new;
    let mut rest = ingredients;
    let mut rows: Vec<IngredientRow> = Vec::new();
    let n = rest.len();
    while rest.len() > 0
        invariant
            n == whole.ingredients@.len(),
            rows@.len() + rest@.len() == n,
            rest@ == whole.ingredients@.skip(rows@.len() as int),
            forall|i: int|
                0 <= i < rows@.len() ==> #[trigger] rows@[i] == ingredient_row_of(
                    whole.ingredients@[i],
                    id,
                ),
        decreases rest@.len(),
    {
        let ghost k = rows@.len();
        let next = rest.remove(0);
        assert(next == whole.ingredients@[k as int]);
        rows.push(ingredient_row(next, id));
        assert(rest@ =~= whole.ingredients@.skip(rows@.len() as int));
    }
    CocktailInsertion {
        author_id,
        cocktail: CocktailRow { id, name, author_id, source, date_added },
        ingredients: rows,
    }
}

/// The work of creating `new`: under a fresh random version-4 identifier,
/// added now. What is planned for the given identifier and time is
/// [`plan_new_cocktail_with`]; here both are whatever the generator and the
/// clock gave. Where the clock gives no UTC time (it reads a time before
/// 1970, or one beyond what chrono can represent), nothing is planned.
pub fn plan_new_cocktail(new: NewCocktail) -> (r: Option<CocktailInsertion>)
    ensures
        r matches Some(plan) ==> exists|id: u128, date_added: Timestamp|
            {
                &&& is_v4_uuid(id)
                &&& date_added.secs >= 0
                &&& date_added.nanos < 1_000_000_000
                &&& is_insertion_of(plan, new, id, date_added)
            },
{
    let id = fresh_id();
    match utc_now() {
        Some(date_added) => Some(plan_new_cocktail_with(new, id, date_added)),
        None => None,
    }
}

/// The ingredient of a cocktail, from what its insert returned and the
/// ingredient type read for it.
pub fn ingredient_from_row(row: InsertedIngredient, ingredient_type: Option<IngredientType>) -> (r:
    Ingredient)
    ensures
        r == ingredient_of(row, ingredient_type),
{
    Ingredient { label: row.label, amount: row.amount, unit: row.unit, ingredient_type }
}

/// The created cocktail, from the row that the insert returned, the author
/// read first, and per ingredient in input order the row its insert
/// returned with the ingredient type read for it.
pub fn cocktail_from_rows(
    row: CocktailRow,
    author: User,
    parts: Vec<(InsertedIngredient, Option<IngredientType>)>,
) -> (r: Cocktail)
    ensures
        is_cocktail_from_rows(r, row, author, parts@),
{
    let ghost all = parts@;
    let mut rest = parts;
    let mut ingredients: Vec<Ingredient> = Vec::new();
    let n = rest.len();
    while rest.len() > 0
        invariant
            n == all.len(),
            ingredients@.len() + rest@.len() == n,
            rest@ == all.skip(ingredients@.len() as int),
            forall|i: int|
                0 <= i < ingredients@.len() ==> #[trigger] ingredients@[i] == ingredient_of(
                    all[i].0,
                    all[i].1,
                ),
        decreases rest@.len(),
    {
        let ghost k = ingredients@.len();
        let (inserted, ingredient_type) = rest.remove(0);
        assert((inserted, ingredient_type) == all[k as int]);
        ingredients.push(ingredient_from_row(inserted, ingredient_type));
        assert(rest@ =~= all.skip(ingredients@.len() as int));
    }
    Cocktail {
        id: row.id,
        name: row.name,
        author,
        source: row.source,
        date_added: row.date_added,
        ingredients,
    }
}

/// The row written for a new ingredient type under the identifier `id`; the
/// insert returns it (`RETURNING id, label`).
pub fn ingredient_type_row_with(new: NewIngredientType, id: u128) -> (r: IngredientType)
    ensures
        r.id == id,
        r.label == new.label,
{
    IngredientType { id, label: new.label }
}

/// The row written for a new ingredient type, under a fresh random
/// version-4 identifier.
pub fn ingredient_type_row(new: NewIngredientType) -> (r: IngredientType)
    ensures
        is_v4_uuid(r.id),
        r.label == new.label,
{
    ingredient_type_row_with(new, fresh_id())
}

} // verus!
