use mensa_bot::config::Configs;
use mensa_bot::errors::{FetchError, ValidationError};
use mensa_bot::models::canteen::Canteen;
use mensa_bot::models::location::Location;
use mensa_bot::resolver::{
    plan_canteen_query, resolution_notice, resolve_canteens, CanteenQuery, CanteenResolution,
    QueryReply,
};

fn config_with_ids(ids: Vec<u32>) -> Configs {
    Configs { locations: Location { cities: vec!["Dresden".to_string()], canteens: ids } }
}

fn canteen(id: u32, name: &str) -> Canteen {
    Canteen {
        id,
        name: name.to_string(),
        city: "Dresden".to_string(),
        address: "Somewhere 1".to_string(),
    }
}

#[test]
fn both_overrides_are_rejected() {
    let config = config_with_ids(vec![1, 2]);
    let r = plan_canteen_query(Some(4), &Some("Dresden".to_string()), &config);
    assert!(r.is_err());
    assert_eq!(ValidationError.message(), "Use either location or id");
}

#[test]
fn id_override_wins() {
    let config = config_with_ids(vec![1, 2]);
    match plan_canteen_query(Some(4), &None, &config) {
        Ok(CanteenQuery::ById(id)) => assert_eq!(id, 4),
        other => panic!("unexpected plan: {:?}", other),
    }
}

#[test]
fn location_override_forwards_text() {
    let config = config_with_ids(vec![1, 2]);
    match plan_canteen_query(None, &Some("Görlitz".to_string()), &config) {
        Ok(CanteenQuery::ByLocation(text)) => assert_eq!(text, "Görlitz"),
        other => panic!("unexpected plan: {:?}", other),
    }
}

#[test]
fn default_config_ids_batch() {
    let config = config_with_ids(vec![1, 2]);
    match plan_canteen_query(None, &None, &config) {
        Ok(CanteenQuery::ByIds(ids)) => assert_eq!(ids, vec![1, 2]),
        other => panic!("unexpected plan: {:?}", other),
    }
}

#[test]
fn id_reply_with_canteen() {
    let r = resolve_canteens(QueryReply::OneCanteen(Ok(Some(canteen(4, "Alte Mensa")))));
    match r {
        CanteenResolution::Resolved(v) => {
            assert_eq!(v.len(), 1);
            assert_eq!(v[0].id, 4);
        },
        other => panic!("unexpected resolution: {:?}", other),
    }
}

#[test]
fn id_reply_not_found() {
    let r = resolve_canteens(QueryReply::OneCanteen(Ok(None)));
    assert!(matches!(r, CanteenResolution::NotFound));
}

#[test]
fn id_reply_error() {
    let r = resolve_canteens(QueryReply::OneCanteen(Err(FetchError::Transport {
        message: "timed out".to_string(),
    })));
    assert!(matches!(r, CanteenResolution::Failed(_)));
}

#[test]
fn list_reply_passes_through() {
    let r = resolve_canteens(QueryReply::ManyCanteens(Ok(vec![
        canteen(1, "Alte Mensa"),
        canteen(2, "Zeltschlösschen"),
    ])));
    match r {
        CanteenResolution::Resolved(v) => {
            assert_eq!(v.len(), 2);
            assert_eq!(v[0].id, 1);
            assert_eq!(v[1].id, 2);
        },
        other => panic!("unexpected resolution: {:?}", other),
    }
}

#[test]
fn empty_list_reply_is_resolved_empty() {
    let r = resolve_canteens(QueryReply::ManyCanteens(Ok(vec![])));
    match r {
        CanteenResolution::Resolved(v) => assert!(v.is_empty()),
        other => panic!("unexpected resolution: {:?}", other),
    }
}

#[test]
fn notice_lines() {
    let by_id = CanteenQuery::ById(4);
    assert_eq!(resolution_notice(&by_id, &CanteenResolution::Resolved(vec![])), None);
    assert_eq!(
        resolution_notice(&by_id, &CanteenResolution::NotFound),
        Some("Canteen not found by ID".to_string())
    );
    let failed = CanteenResolution::Failed(FetchError::Transport { message: "boom".to_string() });
    assert_eq!(
        resolution_notice(&by_id, &failed),
        Some("Error fetching canteens by ID: boom".to_string())
    );
    assert_eq!(
        resolution_notice(&CanteenQuery::ByLocation("x".to_string()), &failed),
        Some("Error fetching canteens by location: boom".to_string())
    );
    assert_eq!(
        resolution_notice(&CanteenQuery::ByIds(vec![1]), &failed),
        Some("Error fetching canteens by IDs: boom".to_string())
    );
}
