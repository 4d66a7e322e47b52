use std::collections::{BTreeMap, BTreeSet, HashMap};

use steam_db_builder::normalizer::{GameRow, Normalized};
use steam_db_builder::pipeline::{Outcome, Run, Step};
use steam_db_builder::progress::{load_vector, save_vector, ProcessedSet};
use steam_db_builder::types::{Achievements, App, AppData, AppInfo, AppList, Category, SteamApps};

#[derive(Clone, Debug, Default, PartialEq)]
struct Tables {
    games: BTreeMap<u32, GameRow>,
    categories: BTreeMap<u32, String>,
    game_categories: BTreeSet<(u32, u32)>,
}

impl Tables {
    fn store(&mut self, rows: &Normalized) {
        if let Some(game) = &rows.game {
            self.games.entry(game.appid).or_insert_with(|| game.clone());
        }
        for category in &rows.categories {
            let taken = self.categories.values().any(|name| *name == category.name);
            if !self.categories.contains_key(&category.id) && !taken {
                self.categories.insert(category.id, category.name.clone());
            }
        }
        for pair in &rows.game_categories {
            self.game_categories.insert((pair.appid, pair.categoryid));
        }
    }
}

#[derive(Debug, Default)]
struct Log {
    fetched: Vec<u32>,
    skipped: Vec<u32>,
    cooldowns: Vec<usize>,
    unresolved: Vec<u32>,
    empty: Vec<u32>,
    checkpoints: Vec<String>,
    names: Vec<String>,
}

fn catalog(ids: &[u32]) -> SteamApps {
    SteamApps { applist: AppList { apps: ids.iter().map(|id| AppInfo { appid: *id }).collect() } }
}

fn record(appid: u32, kind: &str, dlc: &[u32]) -> AppData {
    AppData {
        kind: Some(String::from(kind)),
        steam_appid: appid,
        name: format!("title {}", appid),
        controller_support: Some(String::from("full")),
        price_overview: None,
        release_date: None,
        header_image: None,
        platforms: None,
        achievements: Achievements { total: 3 },
        categories: Some(vec![Category { id: 2, description: String::from("Single-player") }]),
        dlc: if dlc.is_empty() { None } else { Some(dlc.to_vec()) },
        recommendations: None,
    }
}

fn found(data: AppData) -> App {
    App { success: true, data: Some(data) }
}

fn drive(
    ids: &[u32],
    processed: ProcessedSet,
    replies: &HashMap<u32, App>,
    tables: &mut Tables,
) -> (ProcessedSet, Log) {
    let mut run = Run::new(catalog(ids), processed);
    let mut log = Log::default();
    assert_eq!(run.total(), ids.len());
    loop {
        let before = run.position();
        match run.advance() {
            Step::Finished => break,
            Step::Skip { appid } => {
                assert_eq!(ids[before], appid);
                log.skipped.push(appid);
            }
            Step::Fetch { appid, cooldown } => {
                assert_eq!(ids[before], appid);
                if cooldown {
                    log.cooldowns.push(log.fetched.len());
                    log.checkpoints.push(save_vector(run.processed()).unwrap());
                }
                log.fetched.push(appid);
                match run.record(appid, replies.get(&appid).cloned()) {
                    Outcome::Unresolved => log.unresolved.push(appid),
                    Outcome::Empty => log.empty.push(appid),
                    Outcome::Fetched { name, rows } => {
                        log.names.push(name);
                        tables.store(&rows);
                    }
                }
            }
        }
        assert_eq!(run.position(), before + 1);
    }
    assert_eq!(run.position(), ids.len());
    (run.processed().clone(), log)
}

#[test]
fn empty_catalog_finishes_at_once() {
    let mut run = Run::new(catalog(&[]), ProcessedSet::new());
    assert_eq!(run.advance(), Step::Finished);
    assert_eq!(run.advance(), Step::Finished);
    assert_eq!(run.position(), 0);
    assert_eq!(run.requests_made(), 0);
}

#[test]
fn entries_are_taken_in_catalog_order() {
    let replies = HashMap::new();
    let mut tables = Tables::default();
    let (processed, log) = drive(&[30, 10, 20], ProcessedSet::new(), &replies, &mut tables);
    assert_eq!(log.fetched, vec![30, 10, 20]);
    assert_eq!(processed.ids(), &vec![30, 10, 20]);
}

#[test]
fn unsuccessful_item_is_handled_and_not_fetched_again() {
    let mut replies = HashMap::new();
    replies.insert(999, App { success: false, data: None });
    let mut tables = Tables::default();
    let (processed, log) = drive(&[999], ProcessedSet::new(), &replies, &mut tables);
    assert_eq!(log.fetched, vec![999]);
    assert_eq!(log.unresolved, vec![999]);
    assert!(tables.games.is_empty());
    assert!(processed.contains(999));

    let (again, log) = drive(&[999], processed, &replies, &mut tables);
    assert!(log.fetched.is_empty());
    assert_eq!(log.skipped, vec![999]);
    assert!(tables.games.is_empty());
    assert!(again.contains(999));
}

#[test]
fn missing_reply_and_missing_data_store_nothing() {
    let mut replies = HashMap::new();
    replies.insert(2, App { success: true, data: None });
    replies.insert(3, App { success: false, data: Some(record(3, "game", &[4])) });
    let mut tables = Tables::default();
    let (processed, log) = drive(&[1, 2, 3, 4], ProcessedSet::new(), &replies, &mut tables);
    assert_eq!(log.unresolved, vec![1, 3, 4]);
    assert_eq!(log.empty, vec![2]);
    assert!(log.names.is_empty());
    assert_eq!(processed.ids(), &vec![1, 2, 3, 4]);
    assert_eq!(tables, Tables::default());
}

#[test]
fn dlc_of_a_fetched_item_is_handled_without_a_fetch() {
    let mut replies = HashMap::new();
    replies.insert(100, found(record(100, "game", &[101, 102])));
    replies.insert(101, found(record(101, "game", &[])));
    replies.insert(102, found(record(102, "dlc", &[])));
    let mut tables = Tables::default();
    let (processed, log) = drive(&[100, 101, 102, 103], ProcessedSet::new(), &replies, &mut tables);
    assert_eq!(log.fetched, vec![100, 103]);
    assert_eq!(log.skipped, vec![101, 102]);
    assert!(processed.contains(101) && processed.contains(102));
    assert_eq!(processed.ids(), &vec![100, 101, 102, 103]);
    assert_eq!(tables.games.keys().copied().collect::<Vec<u32>>(), vec![100]);
}

#[test]
fn dlc_of_a_filtered_item_is_handled_too() {
    let mut replies = HashMap::new();
    replies.insert(50, found(record(50, "music", &[51])));
    replies.insert(51, found(record(51, "game", &[])));
    let mut tables = Tables::default();
    let (processed, log) = drive(&[50, 51], ProcessedSet::new(), &replies, &mut tables);
    assert_eq!(log.fetched, vec![50]);
    assert_eq!(log.names, vec![String::from("title 50")]);
    assert!(processed.contains(51));
    assert!(tables.games.is_empty());
    assert!(tables.categories.is_empty());
    assert!(tables.game_categories.is_empty());
}

#[test]
fn filtered_item_is_handled_but_not_stored() {
    let mut replies = HashMap::new();
    replies.insert(7, found(record(7, "dlc", &[])));
    let mut run = Run::new(catalog(&[7]), ProcessedSet::new());
    assert_eq!(run.advance(), Step::Fetch { appid: 7, cooldown: false });
    match run.record(7, replies.get(&7).cloned()) {
        Outcome::Fetched { name, rows } => {
            assert_eq!(name, "title 7");
            assert_eq!(rows.game, None);
            assert!(rows.categories.is_empty());
            assert!(rows.game_categories.is_empty());
        }
        other => panic!("{:?}", other),
    }
    assert!(run.processed().contains(7));
}

#[test]
fn processed_set_only_grows_over_runs() {
    let mut replies = HashMap::new();
    replies.insert(1, found(record(1, "game", &[9])));
    replies.insert(2, App { success: false, data: None });
    let start = ProcessedSet::from_ids(vec![500, 2]);
    let mut tables = Tables::default();
    let (first, _) = drive(&[1, 2, 3], start.clone(), &replies, &mut tables);
    for id in start.ids() {
        assert!(first.contains(*id));
    }
    assert_eq!(first.ids(), &vec![500, 2, 1, 9, 3]);
    let (second, _) = drive(&[3, 4, 1], first.clone(), &replies, &mut tables);
    for id in first.ids() {
        assert!(second.contains(*id));
    }
    assert_eq!(second.ids(), &vec![500, 2, 1, 9, 3, 4]);
}

#[test]
fn second_run_from_the_final_set_fetches_and_stores_nothing() {
    let mut replies = HashMap::new();
    replies.insert(1, found(record(1, "game", &[3])));
    replies.insert(2, found(record(2, "game", &[])));
    replies.insert(4, found(record(4, "dlc", &[])));
    let ids = [1, 2, 3, 4, 5];
    let mut tables = Tables::default();
    let (processed, first) = drive(&ids, ProcessedSet::new(), &replies, &mut tables);
    assert_eq!(first.fetched, vec![1, 2, 4, 5]);
    let after_first = tables.clone();
    assert_eq!(after_first.games.len(), 2);
    assert_eq!(after_first.categories.len(), 1);
    assert_eq!(after_first.game_categories.len(), 2);

    let (_, second) = drive(&ids, processed, &replies, &mut tables);
    assert!(second.fetched.is_empty());
    assert_eq!(second.skipped, ids.to_vec());
    assert_eq!(tables, after_first);
}

#[test]
fn second_run_without_a_checkpoint_stores_the_same_rows() {
    let mut replies = HashMap::new();
    replies.insert(1, found(record(1, "game", &[3])));
    replies.insert(2, found(record(2, "game", &[])));
    replies.insert(3, found(record(3, "game", &[])));
    let ids = [1, 2, 3];
    let mut tables = Tables::default();
    let (_, first) = drive(&ids, ProcessedSet::new(), &replies, &mut tables);
    let after_first = tables.clone();
    let (_, second) = drive(&ids, ProcessedSet::new(), &replies, &mut tables);
    assert_eq!(first.fetched, second.fetched);
    assert_eq!(tables, after_first);

    let mut once = Tables::default();
    drive(&ids, ProcessedSet::new(), &replies, &mut once);
    assert_eq!(tables, once);
}

#[test]
fn one_cooldown_after_the_full_batch() {
    let ids: Vec<u32> = (1..=191).collect();
    let replies = HashMap::new();
    let mut tables = Tables::default();
    let (processed, log) = drive(&ids, ProcessedSet::new(), &replies, &mut tables);
    assert_eq!(log.fetched, ids);
    assert_eq!(log.unresolved, ids);
    assert_eq!(log.cooldowns, vec![190]);
    assert_eq!(log.checkpoints.len(), 1);
    let saved = load_vector(Some(log.checkpoints[0].as_str())).unwrap();
    assert_eq!(saved.ids(), &(1..=190).collect::<Vec<u32>>());
    assert_eq!(processed.ids(), &ids);
}

#[test]
fn full_batch_alone_takes_no_cooldown() {
    let ids: Vec<u32> = (1..=190).collect();
    let replies = HashMap::new();
    let mut tables = Tables::default();
    let (_, log) = drive(&ids, ProcessedSet::new(), &replies, &mut tables);
    assert_eq!(log.fetched.len(), 190);
    assert!(log.cooldowns.is_empty());
}

#[test]
fn skipped_entries_are_not_charged() {
    let ids: Vec<u32> = (1..=400).collect();
    let known: Vec<u32> = (1..=400).filter(|id| id % 2 == 0).collect();
    let replies = HashMap::new();
    let mut tables = Tables::default();
    let (_, log) = drive(&ids, ProcessedSet::from_ids(known), &replies, &mut tables);
    assert_eq!(log.fetched.len(), 200);
    assert_eq!(log.skipped.len(), 200);
    assert_eq!(log.cooldowns, vec![190]);

    let mut run = Run::new(catalog(&[8, 9]), ProcessedSet::from_ids(vec![8]));
    assert_eq!(run.advance(), Step::Skip { appid: 8 });
    assert_eq!(run.requests_made(), 0);
    assert_eq!(run.advance(), Step::Fetch { appid: 9, cooldown: false });
    assert_eq!(run.requests_made(), 1);
}

#[test]
fn cooldowns_repeat_every_batch() {
    let ids: Vec<u32> = (1..=571).collect();
    let replies = HashMap::new();
    let mut tables = Tables::default();
    let (_, log) = drive(&ids, ProcessedSet::new(), &replies, &mut tables);
    assert_eq!(log.cooldowns, vec![190, 380, 570]);
}
