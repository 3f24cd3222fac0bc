use mensa_bot::errors::FetchError;
use mensa_bot::fetcher::{
    aggregate_results, fetch_error_message, no_meals_message, CanteenMeals, CanteenReport,
};
use mensa_bot::models::canteen::Canteen;
use mensa_bot::models::meal::{Meal, PriceSet};

fn canteen(id: u32, name: &str) -> Canteen {
    Canteen {
        id,
        name: name.to_string(),
        city: "Dresden".to_string(),
        address: "Somewhere 1".to_string(),
    }
}

fn meal(id: u64, name: &str) -> Meal {
    Meal {
        id,
        name: name.to_string(),
        category: "Classics".to_string(),
        notes: vec![],
        prices: PriceSet { students: Some(250), employees: None, pupils: None, others: None },
    }
}

#[test]
fn partial_failure_keeps_other_rows() {
    let results = vec![
        CanteenMeals {
            canteen: canteen(1, "Alte Mensa"),
            outcome: Ok(vec![meal(10, "Pasta"), meal(11, "Curry")]),
        },
        CanteenMeals {
            canteen: canteen(2, "Zeltschlösschen"),
            outcome: Err(FetchError::Transport { message: "timed out".to_string() }),
        },
    ];
    let reports = aggregate_results(&results);
    assert_eq!(reports.len(), 2);
    match &reports[0] {
        CanteenReport::Rows { canteen_name, rows } => {
            assert_eq!(canteen_name, "Alte Mensa");
            assert_eq!(rows.len(), 2);
            assert_eq!(rows[0].name, "Pasta");
            assert_eq!(rows[1].name, "Curry");
        },
        other => panic!("unexpected report: {:?}", other),
    }
    match &reports[1] {
        CanteenReport::Failed { canteen_name, message } => {
            assert_eq!(canteen_name, "Zeltschlösschen");
            assert_eq!(message, "Error fetching meals for Zeltschlösschen: timed out");
        },
        other => panic!("unexpected report: {:?}", other),
    }
}

#[test]
fn empty_meal_list_is_not_an_error() {
    let results = vec![CanteenMeals { canteen: canteen(1, "Alte Mensa"), outcome: Ok(vec![]) }];
    let reports = aggregate_results(&results);
    assert_eq!(reports.len(), 1);
    match &reports[0] {
        CanteenReport::NoMeals { canteen_name } => assert_eq!(canteen_name, "Alte Mensa"),
        other => panic!("unexpected report: {:?}", other),
    }
}

#[test]
fn reports_keep_resolution_order() {
    let results = vec![
        CanteenMeals { canteen: canteen(1, "Alte Mensa"), outcome: Ok(vec![meal(10, "Pasta")]) },
        CanteenMeals { canteen: canteen(2, "Zeltschlösschen"), outcome: Ok(vec![]) },
        CanteenMeals { canteen: canteen(3, "Grill Cube"), outcome: Ok(vec![meal(12, "Burger")]) },
    ];
    let reports = aggregate_results(&results);
    let names: Vec<&str> = reports
        .iter()
        .map(|r| match r {
            CanteenReport::Rows { canteen_name, .. } => canteen_name.as_str(),
            CanteenReport::NoMeals { canteen_name } => canteen_name.as_str(),
            CanteenReport::Failed { canteen_name, .. } => canteen_name.as_str(),
        })
        .collect();
    assert_eq!(names, vec!["Alte Mensa", "Zeltschlösschen", "Grill Cube"]);
}

#[test]
fn notices_stay_distinguishable() {
    let name = "Alte Mensa".to_string();
    let err = FetchError::Transport { message: "".to_string() };
    let no_meals = no_meals_message(&name);
    let failed = fetch_error_message(&name, &err);
    assert_eq!(no_meals, "No meals found for Alte Mensa");
    assert_eq!(failed, "Error fetching meals for Alte Mensa: ");
    assert_ne!(no_meals, failed);
}
