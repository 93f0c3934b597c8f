use cocktail_catalogue::graphql::cocktail::{CocktailMutation, NewCocktail};
use cocktail_catalogue::graphql::ingredient::NewIngredient;
use cocktail_catalogue::graphql::mutation::MutationRoot;
use cocktail_catalogue::graphql::query::{GeneralQuery, QueryRoot};
use cocktail_catalogue::graphql::VERSION;
use uuid::Uuid;

fn ingredient(label: &str, amount: f64, unit: &str) -> NewIngredient {
    NewIngredient { label: label.to_string(), amount: Some(amount.to_bits()), unit: Some(unit.to_string()) }
}

fn daiquiri() -> NewCocktail {
    NewCocktail {
        name: "Daiquiri".to_string(),
        ingredients: vec![
            ingredient("White rum", 2.0, "oz"),
            ingredient("Lime juice", 0.75, "oz"),
            ingredient("Simple syrup", 0.75, "oz"),
        ],
    }
}

#[test]
fn create_cocktail_returns_cocktail_fields() {
    let root = MutationRoot::default();
    let cocktail = root.0.create_cocktail(daiquiri()).expect("a named cocktail is accepted");
    assert_eq!(Uuid::from_u128(cocktail.id).get_version_num(), 4);
    assert_eq!(cocktail.name, "Daiquiri");
}

#[test]
fn query_cocktail_returns_cocktail_fields() {
    let cocktail = CocktailMutation.create_cocktail(daiquiri()).unwrap();
    let mut ingredients = cocktail.ingredients;
    ingredients.sort_by(|a, b| a.label.cmp(&b.label));

    assert_eq!(3, ingredients.len());

    assert_eq!("Lime juice", ingredients[0].label);
    assert_eq!(0.75, f64::from_bits(ingredients[0].amount.unwrap()));
    assert_eq!(Some("oz"), ingredients[0].unit.as_deref());

    assert_eq!("Simple syrup", ingredients[1].label);
    assert_eq!(0.75, f64::from_bits(ingredients[1].amount.unwrap()));
    assert_eq!(Some("oz"), ingredients[1].unit.as_deref());

    assert_eq!("White rum", ingredients[2].label);
    assert_eq!(2.0, f64::from_bits(ingredients[2].amount.unwrap()));
    assert_eq!(Some("oz"), ingredients[2].unit.as_deref());

    for ingredient in &ingredients {
        assert_eq!(Uuid::from_u128(ingredient.id).get_version_num(), 4);
    }
    assert_ne!(ingredients[0].id, ingredients[1].id);
}

#[test]
fn create_cocktail_fails_on_empty_name() {
    let res = CocktailMutation.create_cocktail(NewCocktail { name: String::new(), ingredients: vec![] });
    let err = res.unwrap_err();
    assert!(
        err.message.contains("greater than or equal to 1"),
        "Expected error about empty name, got {:?}",
        err
    );
    assert_eq!(err.message, "the string length is 0, must be greater than or equal to 1");
}

#[test]
fn create_cocktail_fails_on_empty_ingredient_label() {
    let mut new = daiquiri();
    new.ingredients[1].label = String::new();
    let err = CocktailMutation.create_cocktail(new).unwrap_err();
    assert_eq!(err.message, "the string length is 0, must be greater than or equal to 1");
}

#[test]
fn create_cocktail_with_keeps_the_given_ids() {
    let id = Uuid::parse_str("d54090a3-0886-45b1-a8a7-2ec46c0938fe").unwrap().as_u128();
    let cocktail = CocktailMutation
        .create_cocktail_with(daiquiri(), id, vec![10, 11, 12])
        .unwrap();
    assert_eq!(cocktail.id, id);
    assert_eq!(cocktail.name, "Daiquiri");
    assert_eq!(cocktail.ingredients.len(), 3);
    assert_eq!(cocktail.ingredients[0].id, 10);
    assert_eq!(cocktail.ingredients[0].label, "White rum");
    assert_eq!(cocktail.ingredients[2].id, 12);
    assert_eq!(cocktail.ingredients[2].label, "Simple syrup");
}

#[test]
fn created_cocktails_get_distinct_ids() {
    let a = CocktailMutation.create_cocktail(NewCocktail { name: "A".to_string(), ingredients: vec![] }).unwrap();
    let b = CocktailMutation.create_cocktail(NewCocktail { name: "B".to_string(), ingredients: vec![] }).unwrap();
    assert_ne!(a.id, b.id);
}

#[test]
fn into_cocktail_uses_the_ids() {
    let new = NewCocktail { name: "Negroni".to_string(), ingredients: vec![ingredient("Gin", 1.0, "oz")] };
    let c = new.into_cocktail(42, vec![43]);
    assert_eq!(c.id, 42);
    assert_eq!(c.name, "Negroni");
    assert_eq!(c.ingredients[0].id, 43);
    assert_eq!(c.ingredients[0].label, "Gin");
}

#[test]
fn new_ingredient_label_must_not_be_empty() {
    let ok = ingredient("White rum", 2.0, "oz");
    assert!(ok.validate().is_ok());
    let bad = NewIngredient { label: String::new(), amount: None, unit: None };
    assert_eq!(
        bad.validate().unwrap_err().message,
        "the string length is 0, must be greater than or equal to 1"
    );
    let stored = ok.into_ingredient(5);
    assert_eq!(stored.id, 5);
    assert_eq!(stored.label, "White rum");
}

#[test]
fn api_version_returns_package_version() {
    let root = QueryRoot::default();
    assert_eq!(root.0.api_version(), "0.1.0");
    assert_eq!(GeneralQuery.api_version(), VERSION);
}
