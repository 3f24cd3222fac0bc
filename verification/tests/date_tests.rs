use mensa_bot::date::{current_date, date_from_parts, resolve, resolve_date, Date};

fn march_first() -> Date {
    Date { year: 2024, month: 3, day: 1 }
}

#[test]
fn resolve_today_token() {
    let r = resolve_date("today", march_first());
    assert!(!r.token_invalid);
    assert_eq!(r.date, march_first());
}

#[test]
fn resolve_explicit_date() {
    let r = resolve_date("2019-11-30", march_first());
    assert!(!r.token_invalid);
    assert_eq!(r.date, Date { year: 2019, month: 11, day: 30 });
}

#[test]
fn resolve_leap_day() {
    let r = resolve_date("2024-02-29", march_first());
    assert!(!r.token_invalid);
    assert_eq!(r.date, Date { year: 2024, month: 2, day: 29 });
}

#[test]
fn resolve_rejects_bad_leap_day() {
    let r = resolve_date("2023-02-29", march_first());
    assert!(r.token_invalid);
    assert_eq!(r.date, march_first());
}

#[test]
fn resolve_malformed_token_falls_back() {
    for token in ["", "soon", "2024/03/01", "03-01-2024", "2024-13-01", "2024-00-10"] {
        let r = resolve_date(token, march_first());
        assert!(r.token_invalid, "token {:?} should be invalid", token);
        assert_eq!(r.date, march_first());
    }
}

#[test]
fn resolve_accepts_unpadded_parts() {
    // The date parser is lenient about zero padding.
    let r = resolve_date("2024-3-1", march_first());
    assert!(!r.token_invalid);
    assert_eq!(r.date, march_first());
}

#[test]
fn resolve_with_current_date_never_fails() {
    let r = resolve("definitely not a date");
    assert!(r.token_invalid);
    let today = current_date();
    assert_eq!(r.date, today);
}

#[test]
fn date_from_parts_validates() {
    assert_eq!(date_from_parts(2024, 2, 29), Some(Date { year: 2024, month: 2, day: 29 }));
    assert_eq!(date_from_parts(2023, 2, 29), None);
    assert_eq!(date_from_parts(2024, 0, 1), None);
    assert_eq!(date_from_parts(2024, 13, 1), None);
    assert_eq!(date_from_parts(2024, 4, 31), None);
    assert_eq!(date_from_parts(-5, 1, 1), None);
    assert_eq!(date_from_parts(10000, 1, 1), None);
    assert_eq!(date_from_parts(0, 1, 1), Some(Date { year: 0, month: 1, day: 1 }));
}

#[test]
fn iso_rendering_pads() {
    let d = Date { year: 987, month: 1, day: 5 };
    assert_eq!(d.to_iso_string(), "0987-01-05");
    let d = Date { year: 2024, month: 12, day: 31 };
    assert_eq!(d.to_iso_string(), "2024-12-31");
}
