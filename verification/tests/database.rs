use cocktail_catalogue::clock::Timestamp;
use cocktail_catalogue::database::{
    cocktail_from_rows, ingredient_from_row, ingredient_row, ingredient_type_row,
    ingredient_type_row_with, plan_new_cocktail, plan_new_cocktail_with, CocktailRow,
    InsertedIngredient,
};
use cocktail_catalogue::schema::types::{IngredientType, NewCocktail, NewIngredient, NewIngredientType, User};
use uuid::Uuid;

const AUTHOR: &str = "d54090a3-0886-45b1-a8a7-2ec46c0938fe";
const SOURCE: &str = "https://jeffreymorgenthaler.com/i-make-the-best-amaretto-sour-in-the-world/";

fn amaretto_sour(amaretto_id: u128, bourbon_id: u128) -> NewCocktail {
    NewCocktail {
        name: "Amaretto Sour".to_string(),
        author_id: Uuid::parse_str(AUTHOR).unwrap().as_u128(),
        source: Some(SOURCE.to_string()),
        ingredients: vec![
            NewIngredient {
                label: "Amaretto".to_string(),
                amount: Some(1.5f64.to_bits()),
                unit: Some("oz".to_string()),
                ingredient_type_id: Some(amaretto_id),
            },
            NewIngredient {
                label: "Cask-proof bourbon".to_string(),
                amount: Some(0.75f64.to_bits()),
                unit: Some("oz".to_string()),
                ingredient_type_id: Some(bourbon_id),
            },
        ],
    }
}

#[test]
fn create_cocktail_returns_expected() {
    let amaretto_id = 1u128;
    let bourbon_id = 2u128;
    let id = 3u128;
    let date = Timestamp { secs: 1_700_000_000, nanos: 5 };
    let plan = plan_new_cocktail_with(amaretto_sour(amaretto_id, bourbon_id), id, date);

    assert_eq!(Uuid::from_u128(plan.author_id).to_string(), AUTHOR);
    assert_eq!(plan.cocktail.id, id);
    assert_eq!(plan.cocktail.name, "Amaretto Sour");
    assert_eq!(plan.cocktail.source.as_deref(), Some(SOURCE));
    assert_eq!(plan.cocktail.date_added, date);
    assert_eq!(plan.ingredients.len(), 2);
    assert_eq!(plan.ingredients[0].cocktail_id, id);
    assert_eq!(plan.ingredients[1].cocktail_id, id);
    assert_eq!(plan.ingredients[0].ingredient_type_id, Some(amaretto_id));
    assert_eq!(plan.ingredients[1].label, "Cask-proof bourbon");

    // The database hands back what was written.
    let author = User { name: "Luke Skywalker".to_string(), id: plan.author_id };
    let types = vec![
        Some(IngredientType { id: amaretto_id, label: "Amaretto".to_string() }),
        Some(IngredientType { id: bourbon_id, label: "Bourbon".to_string() }),
    ];
    let mut parts = Vec::new();
    for (row, t) in plan.ingredients.iter().zip(types) {
        parts.push((
            InsertedIngredient { label: row.label.clone(), amount: row.amount, unit: row.unit.clone() },
            t,
        ));
    }
    let returned = CocktailRow {
        id: plan.cocktail.id,
        name: plan.cocktail.name.clone(),
        author_id: plan.cocktail.author_id,
        source: plan.cocktail.source.clone(),
        date_added: plan.cocktail.date_added,
    };
    let cocktail = cocktail_from_rows(returned, author, parts);

    assert_eq!(cocktail.id, id);
    assert_eq!(cocktail.name, "Amaretto Sour");
    assert_eq!(cocktail.author.name, "Luke Skywalker");
    assert_eq!(Uuid::from_u128(cocktail.author.id).to_string(), AUTHOR);
    assert_eq!(cocktail.source.as_deref(), Some(SOURCE));
    assert_eq!(cocktail.date_added, date);
    assert_eq!(cocktail.ingredients.len(), 2);
    assert_eq!(cocktail.ingredients[0].label, "Amaretto");
    assert_eq!(f64::from_bits(cocktail.ingredients[0].amount.unwrap()), 1.5);
    assert_eq!(cocktail.ingredients[0].unit.as_deref(), Some("oz"));
    assert_eq!(cocktail.ingredients[0].ingredient_type.as_ref().unwrap().label, "Amaretto");
    assert_eq!(cocktail.ingredients[0].ingredient_type.as_ref().unwrap().id, amaretto_id);
    assert_eq!(cocktail.ingredients[1].label, "Cask-proof bourbon");
    assert_eq!(f64::from_bits(cocktail.ingredients[1].amount.unwrap()), 0.75);
    assert_eq!(cocktail.ingredients[1].ingredient_type.as_ref().unwrap().label, "Bourbon");
}

#[test]
fn create_cocktail_returns_id_and_date_added() {
    let new = NewCocktail {
        name: "Amaretto Sour".to_string(),
        author_id: Uuid::parse_str(AUTHOR).unwrap().as_u128(),
        source: Some(SOURCE.to_string()),
        ingredients: vec![],
    };
    let plan = plan_new_cocktail(new).expect("the clock reads a time after 1970");
    assert_eq!(Uuid::from_u128(plan.cocktail.id).get_version_num(), 4);
    assert!(plan.cocktail.date_added.secs > 1_600_000_000);
    assert!(plan.cocktail.date_added.nanos < 1_000_000_000);
    assert!(plan.ingredients.is_empty());
}

#[test]
fn cocktail_without_ingredients_has_none() {
    let id = 9u128;
    let date = Timestamp { secs: 0, nanos: 0 };
    let new = NewCocktail { name: "Water".to_string(), author_id: 8u128, source: None, ingredients: vec![] };
    let plan = plan_new_cocktail_with(new, id, date);
    let author = User { name: "Leia".to_string(), id: plan.author_id };
    let c = cocktail_from_rows(plan.cocktail, author, Vec::new());
    assert_eq!(c.name, "Water");
    assert!(c.source.is_none());
    assert!(c.ingredients.is_empty());
}

#[test]
fn ingredient_with_unknown_type_has_none() {
    let row = ingredient_row(
        NewIngredient { label: "Ice".to_string(), amount: None, unit: None, ingredient_type_id: None },
        5u128,
    );
    assert_eq!(row.cocktail_id, 5u128);
    assert_eq!(row.ingredient_type_id, None);
    let ing = ingredient_from_row(InsertedIngredient { label: row.label, amount: row.amount, unit: row.unit }, None);
    assert_eq!(ing.label, "Ice");
    assert!(ing.amount.is_none() && ing.unit.is_none() && ing.ingredient_type.is_none());
}

#[test]
fn create_ingredient_type_returns_id_and_label() {
    let t = ingredient_type_row(NewIngredientType { label: "Amaretto".to_string() });
    assert_eq!(t.label, "Amaretto");
    assert_eq!(Uuid::from_u128(t.id).get_version_num(), 4);
    let fixed = ingredient_type_row_with(NewIngredientType { label: "Bourbon".to_string() }, 7u128);
    assert_eq!(fixed.id, 7u128);
    assert_eq!(fixed.label, "Bourbon");
}
