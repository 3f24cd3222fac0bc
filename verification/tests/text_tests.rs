use mensa_bot::text::{find_char, join_comma, str_contains, str_eq, u64_to_padded_string, u64_to_string};

#[test]
fn decimal_rendering() {
    assert_eq!(u64_to_string(0), "0");
    assert_eq!(u64_to_string(7), "7");
    assert_eq!(u64_to_string(305), "305");
    assert_eq!(u64_to_string(18446744073709551615), "18446744073709551615");
}

#[test]
fn padded_rendering() {
    assert_eq!(u64_to_padded_string(7, 4), "0007");
    assert_eq!(u64_to_padded_string(987, 4), "0987");
    assert_eq!(u64_to_padded_string(12345, 4), "12345");
    assert_eq!(u64_to_padded_string(0, 2), "00");
}

#[test]
fn join_with_comma() {
    assert_eq!(join_comma(&vec![]), "");
    assert_eq!(join_comma(&vec!["a".to_string()]), "a");
    assert_eq!(
        join_comma(&vec!["vegan".to_string(), "spicy".to_string(), "nuts".to_string()]),
        "vegan, spicy, nuts"
    );
}

#[test]
fn string_equality() {
    assert!(str_eq("today", "today"));
    assert!(!str_eq("today", "toady"));
    assert!(!str_eq("today", "todays"));
    assert!(str_eq("", ""));
    assert!(str_eq("Görlitz", "Görlitz"));
}

#[test]
fn substring_search() {
    assert!(str_contains("Alte Mensa", "Mensa"));
    assert!(str_contains("Alte Mensa", ""));
    assert!(!str_contains("Grill Cube", "Mensa"));
    assert!(str_contains("Mensa Reichenbachstraße", "straße"));
    assert!(!str_contains("ab", "abc"));
}

#[test]
fn char_search() {
    assert_eq!(find_char("a,b,c", ',', 0), 1);
    assert_eq!(find_char("a,b,c", ',', 2), 3);
    assert_eq!(find_char("abc", ',', 0), 3);
}
