use cocktail_catalogue::clock::Timestamp;
use cocktail_catalogue::creation::{step, step_with, Answer, Creation, Next, Statement};
use cocktail_catalogue::database::{CocktailRow, InsertedIngredient};
use cocktail_catalogue::schema::types::{IngredientType, NewCocktail, NewIngredient, User};
use uuid::Uuid;

fn sour() -> NewCocktail {
    NewCocktail {
        name: "Whiskey Sour".to_string(),
        author_id: 77,
        source: None,
        ingredients: vec![
            NewIngredient { label: "Bourbon".to_string(), amount: Some(2.0f64.to_bits()), unit: Some("oz".to_string()), ingredient_type_id: Some(5) },
            NewIngredient { label: "Lemon".to_string(), amount: None, unit: None, ingredient_type_id: None },
        ],
    }
}

fn user() -> User {
    User { name: "Luke".to_string(), id: 77 }
}

fn echo_cocktail(row: &CocktailRow) -> Answer {
    Answer::CocktailInserted(CocktailRow {
        id: row.id,
        name: row.name.clone(),
        author_id: row.author_id,
        source: row.source.clone(),
        date_added: row.date_added,
    })
}

#[test]
fn creation_runs_statements_in_order() {
    let date = Timestamp { secs: 1_700_000_000, nanos: 0 };
    let (state, st) = Creation::start(sour());
    assert!(matches!(st, Statement::FetchUser { user_id: 77 }));

    let Next::Run(state, Statement::InsertCocktail(row)) = step_with(state, Answer::User(user()), 9, Some(date)) else {
        panic!("the cocktail row comes after the author");
    };
    assert_eq!(row.id, 9);
    assert_eq!(row.name, "Whiskey Sour");
    assert_eq!(row.date_added, date);

    let Next::Run(state, Statement::FetchIngredientType { id }) = step_with(state, echo_cocktail(&row), 0, None) else {
        panic!("the first ingredient's type is read next");
    };
    assert_eq!(id, Some(5));

    let bourbon = IngredientType { id: 5, label: "Bourbon".to_string() };
    let Next::Run(state, Statement::InsertIngredient(first)) =
        step_with(state, Answer::IngredientTypeRead(Some(bourbon)), 0, None)
    else {
        panic!("the first ingredient is written next");
    };
    assert_eq!(first.cocktail_id, 9);
    assert_eq!(first.label, "Bourbon");

    let answer = Answer::IngredientInserted(InsertedIngredient { label: first.label.clone(), amount: first.amount, unit: first.unit.clone() });
    let Next::Run(state, Statement::FetchIngredientType { id }) = step_with(state, answer, 0, None) else {
        panic!("the second ingredient's type is read next");
    };
    assert_eq!(id, None);

    let Next::Run(state, Statement::InsertIngredient(second)) =
        step_with(state, Answer::IngredientTypeRead(None), 0, None)
    else {
        panic!("the second ingredient is written next");
    };
    assert_eq!(second.label, "Lemon");

    let answer = Answer::IngredientInserted(InsertedIngredient { label: second.label.clone(), amount: None, unit: None });
    let Next::Finished(cocktail) = step_with(state, answer, 0, None) else {
        panic!("the cocktail is created after the last ingredient");
    };
    assert_eq!(cocktail.id, 9);
    assert_eq!(cocktail.name, "Whiskey Sour");
    assert_eq!(cocktail.author.name, "Luke");
    assert_eq!(cocktail.ingredients.len(), 2);
    assert_eq!(cocktail.ingredients[0].label, "Bourbon");
    assert_eq!(cocktail.ingredients[0].ingredient_type.as_ref().unwrap().label, "Bourbon");
    assert_eq!(cocktail.ingredients[1].label, "Lemon");
    assert!(cocktail.ingredients[1].ingredient_type.is_none());
}

#[test]
fn creation_stops_at_the_first_failure() {
    let (state, _) = Creation::start(sour());
    assert!(matches!(step(state, Answer::Failed), Next::Stopped));

    let (state, _) = Creation::start(sour());
    let Next::Run(state, Statement::InsertCocktail(_)) = step(state, Answer::User(user())) else {
        panic!("the cocktail row comes after the author");
    };
    assert!(matches!(step(state, Answer::Failed), Next::Stopped));
}

#[test]
fn creation_without_clock_time_stops() {
    let (state, _) = Creation::start(sour());
    assert!(matches!(step_with(state, Answer::User(user()), 1, None), Next::Stopped));
}

#[test]
fn creation_refuses_an_answer_to_another_statement() {
    let (state, _) = Creation::start(sour());
    assert!(matches!(step(state, Answer::IngredientTypeRead(None)), Next::Stopped));
}

#[test]
fn creation_plans_a_fresh_v4_id_and_the_current_time() {
    let (state, _) = Creation::start(sour());
    let Next::Run(_, Statement::InsertCocktail(row)) = step(state, Answer::User(user())) else {
        panic!("the cocktail row comes after the author");
    };
    assert_eq!(Uuid::from_u128(row.id).get_version_num(), 4);
    assert!(row.date_added.secs > 1_577_836_800);
}

#[test]
fn creation_without_ingredients_finishes_after_the_cocktail_row() {
    let new = NewCocktail { name: "Water".to_string(), author_id: 1, source: None, ingredients: vec![] };
    let (state, _) = Creation::start(new);
    let Next::Run(state, Statement::InsertCocktail(row)) =
        step_with(state, Answer::User(User { name: "Rey".to_string(), id: 1 }), 3, Some(Timestamp { secs: 0, nanos: 0 }))
    else {
        panic!("the cocktail row comes after the author");
    };
    let Next::Finished(c) = step_with(state, echo_cocktail(&row), 0, None) else {
        panic!("no ingredient is left to write");
    };
    assert_eq!(c.id, 3);
    assert!(c.ingredients.is_empty());
}
