use mensa_bot::mensa_api::{get_dresden_canteens, second_comma_segment};
use mensa_bot::models::canteen::Canteen;

fn canteen(id: u32, name: &str, city: &str) -> Canteen {
    Canteen {
        id,
        name: name.to_string(),
        city: city.to_string(),
        address: "Somewhere 1".to_string(),
    }
}

#[test]
fn second_segment_extraction() {
    assert_eq!(second_comma_segment("Dresden, Alte Mensa"), " Alte Mensa");
    assert_eq!(second_comma_segment("NoComma"), "");
    assert_eq!(second_comma_segment("a,b,c"), "b");
    assert_eq!(second_comma_segment("trailing,"), "");
    assert_eq!(second_comma_segment(""), "");
}

#[test]
fn dresden_listing_filters_and_shortens() {
    let canteens = vec![
        canteen(1, "Dresden, Alte Mensa", "Dresden"),
        canteen(2, "Leipzig, Mensa am Park", "Leipzig"),
        canteen(3, "Dresden, Zeltschlösschen", "Dresden"),
        canteen(4, "Mensa Görlitz", "Görlitz"),
    ];
    let dresden = get_dresden_canteens(&canteens);
    assert_eq!(dresden.len(), 2);
    assert_eq!(dresden[0].id, 1);
    assert_eq!(dresden[0].name, " Alte Mensa");
    assert_eq!(dresden[0].city, "Dresden");
    assert_eq!(dresden[1].id, 3);
    assert_eq!(dresden[1].name, " Zeltschlösschen");
}
