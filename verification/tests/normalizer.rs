use steam_db_builder::normalizer::{
    controller_support_code, game_row, has_game_kind, normalize, CategoryRow, GameCategoryRow,
    CONTROLLER_FULL, CONTROLLER_NONE, CONTROLLER_OTHER, CONTROLLER_PARTIAL,
};
use steam_db_builder::types::{
    Achievements, AppData, Category, Platforms, Price, Recommendations, ReleaseDate,
};

fn bare(appid: u32, kind: Option<&str>) -> AppData {
    AppData {
        kind: kind.map(String::from),
        steam_appid: appid,
        name: format!("title {}", appid),
        controller_support: None,
        price_overview: None,
        release_date: None,
        header_image: None,
        platforms: None,
        achievements: Achievements::default(),
        categories: None,
        dlc: None,
        recommendations: None,
    }
}

#[test]
fn controller_tags_map_to_their_codes() {
    assert_eq!(controller_support_code(&Some(String::from("none"))), 0);
    assert_eq!(controller_support_code(&Some(String::from("partial"))), 1);
    assert_eq!(controller_support_code(&Some(String::from("full"))), 2);
    assert_eq!(CONTROLLER_NONE, 0);
    assert_eq!(CONTROLLER_PARTIAL, 1);
    assert_eq!(CONTROLLER_FULL, 2);
    assert_eq!(CONTROLLER_OTHER, 3);
}

#[test]
fn unknown_and_missing_controller_tags_share_a_code() {
    assert_eq!(controller_support_code(&Some(String::from("gamepad"))), 3);
    assert_eq!(controller_support_code(&Some(String::from("Full"))), 3);
    assert_eq!(controller_support_code(&Some(String::new())), 3);
    assert_eq!(controller_support_code(&None), 3);
}

#[test]
fn missing_platform_block_stores_null_flags() {
    let row = game_row(&bare(10, Some("game")));
    assert_eq!(row.supports_windows, None);
    assert_eq!(row.supports_mac, None);
    assert_eq!(row.supports_linux, None);
}

#[test]
fn present_platform_block_stores_each_flag() {
    let mut data = bare(10, Some("game"));
    data.platforms = Some(Platforms { windows: true, mac: false, linux: false });
    let row = game_row(&data);
    assert_eq!(row.supports_windows, Some(true));
    assert_eq!(row.supports_mac, Some(false));
    assert_eq!(row.supports_linux, Some(false));
}

#[test]
fn achievements_flag_follows_the_counter() {
    let mut data = bare(10, Some("game"));
    assert_eq!(Achievements::default().total, 0);
    assert!(!game_row(&data).has_achievements);
    data.achievements = Achievements { total: 1 };
    assert!(game_row(&data).has_achievements);
    data.achievements = Achievements { total: 520 };
    assert!(game_row(&data).has_achievements);
}

#[test]
fn optional_fields_are_carried_over_or_null() {
    let mut data = bare(730, Some("game"));
    let row = game_row(&data);
    assert_eq!(row.appid, 730);
    assert_eq!(row.name, "title 730");
    assert_eq!(row.controller_support, 3);
    assert_eq!(row.price, None);
    assert_eq!(row.total_recommendations, None);
    assert_eq!(row.release_date, None);
    assert_eq!(row.header_image, None);

    data.controller_support = Some(String::from("partial"));
    data.price_overview = Some(Price { initial: 1499 });
    data.recommendations = Some(Recommendations { total: 42 });
    data.release_date = Some(ReleaseDate { date: String::from("21 Aug, 2012") });
    data.header_image = Some(String::from("https://cdn.example/header.jpg"));
    let row = game_row(&data);
    assert_eq!(row.controller_support, 1);
    assert_eq!(row.price, Some(1499));
    assert_eq!(row.total_recommendations, Some(42));
    assert_eq!(row.release_date, Some(String::from("21 Aug, 2012")));
    assert_eq!(row.header_image, Some(String::from("https://cdn.example/header.jpg")));
}

#[test]
fn only_the_game_tag_counts_as_a_game() {
    assert!(has_game_kind(&bare(1, Some("game"))));
    assert!(!has_game_kind(&bare(1, Some("dlc"))));
    assert!(!has_game_kind(&bare(1, Some("Game"))));
    assert!(!has_game_kind(&bare(1, Some("games"))));
    assert!(!has_game_kind(&bare(1, Some(""))));
    assert!(!has_game_kind(&bare(1, None)));
}

#[test]
fn dlc_record_yields_no_game_row() {
    let mut data = bare(77, Some("dlc"));
    data.controller_support = Some(String::from("full"));
    data.price_overview = Some(Price { initial: 999 });
    data.platforms = Some(Platforms { windows: true, mac: true, linux: true });
    data.achievements = Achievements { total: 12 };
    data.categories = Some(vec![Category { id: 2, description: String::from("Single-player") }]);
    data.recommendations = Some(Recommendations { total: 5 });
    let out = normalize(&data);
    assert_eq!(out.game, None);
    assert!(out.categories.is_empty());
    assert!(out.game_categories.is_empty());
    assert!(out.dlc.is_empty());
}

#[test]
fn record_without_kind_yields_no_game_row() {
    let mut data = bare(78, None);
    data.categories = Some(vec![Category { id: 2, description: String::from("Single-player") }]);
    let out = normalize(&data);
    assert_eq!(out.game, None);
    assert!(out.categories.is_empty());
    assert!(out.game_categories.is_empty());
}

#[test]
fn dlc_ids_are_forwarded_whatever_the_kind() {
    let mut game = bare(100, Some("game"));
    game.dlc = Some(vec![101, 102, 101]);
    assert_eq!(normalize(&game).dlc, vec![101, 102, 101]);

    let mut music = bare(200, Some("music"));
    music.dlc = Some(vec![201]);
    let out = normalize(&music);
    assert_eq!(out.game, None);
    assert_eq!(out.dlc, vec![201]);

    let mut untagged = bare(300, None);
    untagged.dlc = Some(vec![]);
    assert!(normalize(&untagged).dlc.is_empty());
}

#[test]
fn game_record_yields_its_row_and_one_pair_of_rows_per_category() {
    let mut data = bare(440, Some("game"));
    data.categories = Some(vec![
        Category { id: 1, description: String::from("Multi-player") },
        Category { id: 22, description: String::from("Steam Achievements") },
        Category { id: 1, description: String::from("Multi-player") },
    ]);
    let out = normalize(&data);
    assert_eq!(out.game, Some(game_row(&data)));
    assert_eq!(
        out.categories,
        vec![
            CategoryRow { id: 1, name: String::from("Multi-player") },
            CategoryRow { id: 22, name: String::from("Steam Achievements") },
            CategoryRow { id: 1, name: String::from("Multi-player") },
        ]
    );
    assert_eq!(
        out.game_categories,
        vec![
            GameCategoryRow { appid: 440, categoryid: 1 },
            GameCategoryRow { appid: 440, categoryid: 22 },
            GameCategoryRow { appid: 440, categoryid: 1 },
        ]
    );
    assert!(out.dlc.is_empty());
}

#[test]
fn game_without_categories_yields_only_its_row() {
    let out = normalize(&bare(5, Some("game")));
    assert!(out.game.is_some());
    assert!(out.categories.is_empty());
    assert!(out.game_categories.is_empty());
}
