use std::collections::HashMap;

use steam_db_builder::fetcher::{detail_url, resolve, CATALOG_URL, DETAIL_URL};
use steam_db_builder::types::{Achievements, App, AppData};

fn record(appid: u32) -> AppData {
    AppData {
        kind: Some(String::from("game")),
        steam_appid: appid,
        name: String::from("a title"),
        controller_support: None,
        price_overview: None,
        release_date: None,
        header_image: None,
        platforms: None,
        achievements: Achievements { total: 0 },
        categories: None,
        dlc: None,
        recommendations: None,
    }
}

#[test]
fn detail_address_ends_in_the_decimal_id() {
    assert_eq!(detail_url(440), "https://store.steampowered.com/api/appdetails?appids=440");
    assert_eq!(detail_url(0), "https://store.steampowered.com/api/appdetails?appids=0");
    assert_eq!(detail_url(7), format!("{}7", DETAIL_URL));
    assert_eq!(detail_url(1000), format!("{}1000", DETAIL_URL));
    assert_eq!(detail_url(u32::MAX), format!("{}4294967295", DETAIL_URL));
}

#[test]
fn catalog_address_is_fixed() {
    assert_eq!(CATALOG_URL, "https://api.steampowered.com/ISteamApps/GetAppList/v2/");
}

fn reply(entries: Vec<(u32, App)>) -> HashMap<u32, App> {
    entries.into_iter().collect()
}

#[test]
fn empty_reply_resolves_to_nothing() {
    assert!(resolve(HashMap::new(), 7).is_none());
}

#[test]
fn unsuccessful_envelope_resolves_to_nothing() {
    assert!(resolve(reply(vec![(999, App { success: false, data: None })]), 999).is_none());
    assert!(
        resolve(reply(vec![(999, App { success: false, data: Some(record(999)) })]), 999).is_none()
    );
}

#[test]
fn successful_envelope_is_handed_on() {
    let app =
        resolve(reply(vec![(440, App { success: true, data: Some(record(440)) })]), 440).unwrap();
    assert!(app.success);
    assert_eq!(app.data.unwrap().steam_appid, 440);
    let empty = resolve(reply(vec![(441, App { success: true, data: None })]), 441).unwrap();
    assert!(empty.success && empty.data.is_none());
}

#[test]
fn reply_keyed_by_another_id_resolves_to_nothing() {
    assert!(resolve(reply(vec![(5, App { success: true, data: Some(record(5)) })]), 7).is_none());
}

#[test]
fn entry_under_the_requested_id_decides() {
    let entries = vec![
        (1, App { success: true, data: Some(record(1)) }),
        (2, App { success: true, data: Some(record(2)) }),
        (3, App { success: false, data: Some(record(3)) }),
    ];
    let app = resolve(reply(entries.clone()), 2).unwrap();
    assert_eq!(app.data.unwrap().steam_appid, 2);
    let app = resolve(reply(entries.clone()), 1).unwrap();
    assert_eq!(app.data.unwrap().steam_appid, 1);
    assert!(resolve(reply(entries.clone()), 3).is_none());
    assert!(resolve(reply(entries), 4).is_none());
}
