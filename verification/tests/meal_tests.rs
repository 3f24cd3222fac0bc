use mensa_bot::models::meal::{price_display, to_row, Meal, PriceSet};

fn meal_with(prices: PriceSet, notes: Vec<String>) -> Meal {
    Meal {
        id: 1,
        name: "Pasta".to_string(),
        category: "Classics".to_string(),
        notes,
        prices,
    }
}

#[test]
fn row_with_all_tiers_absent() {
    let meal = meal_with(
        PriceSet { students: None, employees: None, pupils: None, others: None },
        vec![],
    );
    let row = to_row(&meal);
    assert_eq!(row.name, "Pasta");
    assert_eq!(row.student_price, 0);
    assert_eq!(row.employee_price, 0);
    assert_eq!(row.guest_price, 0);
    assert_eq!(row.notes, "");
}

#[test]
fn row_keeps_published_prices() {
    let meal = meal_with(
        PriceSet { students: Some(250), employees: Some(410), pupils: Some(300), others: None },
        vec!["vegan".to_string(), "nuts".to_string()],
    );
    let row = to_row(&meal);
    assert_eq!(row.student_price, 250);
    assert_eq!(row.employee_price, 410);
    // The guest column carries the pupil tier.
    assert_eq!(row.guest_price, 300);
    assert_eq!(row.notes, "vegan, nuts");
}

#[test]
fn price_text() {
    assert_eq!(price_display(0), "0");
    assert_eq!(price_display(300), "3");
    assert_eq!(price_display(250), "2.5");
    assert_eq!(price_display(295), "2.95");
    assert_eq!(price_display(5), "0.05");
    assert_eq!(price_display(1000), "10");
    assert_eq!(price_display(1234), "12.34");
}
