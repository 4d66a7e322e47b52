//! Turns a detail record into the rows that are stored for it, and into the
//! ids that are marked as handled without ever being fetched.

use vstd::prelude::*;
use crate::types::{AppData, Category};

verus! {

/// Stored value for a title without controller support.
pub const CONTROLLER_NONE: u8 = 0;

/// Stored value for partial controller support.
pub const CONTROLLER_PARTIAL: u8 = 1;

/// Stored value for full controller support.
pub const CONTROLLER_FULL: u8 = 2;

/// Stored value for an absent or unknown controller support tag.
pub const CONTROLLER_OTHER: u8 = 3;

/// A row of the games table.
#[derive(Clone, Debug, PartialEq, Eq)]
pub struct GameRow {
    pub appid: u32,
    pub name: String,
    pub controller_support: u8,
    pub has_achievements: bool,
    pub supports_windows: Option<bool>,
    pub supports_mac: Option<bool>,
    pub supports_linux: Option<bool>,
    pub price: Option<u32>,
    pub total_recommendations: Option<u32>,
    pub release_date: Option<String>,
    pub header_image: Option<String>,
}

/// A row of the categories table.
#[derive(Clone, Debug, PartialEq, Eq)]
pub struct CategoryRow {
    pub id: u32,
    pub name: String,
}

/// A row of the table that joins games and categories.
#[derive(Clone, Copy, Debug, PartialEq, Eq)]
pub struct GameCategoryRow {
    pub appid: u32,
    pub categoryid: u32,
}

/// Everything one detail record contributes: at most one game, its categories
/// with the rows that join them to the game, and the ids of its DLC.
#[derive(Clone, Debug, PartialEq, Eq)]
pub struct Normalized {
    pub game: Option<GameRow>,
    pub categories: Vec<CategoryRow>,
    pub game_categories: Vec<GameCategoryRow>,
    pub dlc: Vec<u32>,
}

/// What a games row says.
pub struct GameModel {
    pub appid: u32,
    pub name: Seq<char>,
    pub controller_support: u8,
    pub has_achievements: bool,
    pub supports_windows: Option<bool>,
    pub supports_mac: Option<bool>,
    pub supports_linux: Option<bool>,
    pub price: Option<u32>,
    pub total_recommendations: Option<u32>,
    pub release_date: Option<Seq<char>>,
    pub header_image: Option<Seq<char>>,
}

/// What a categories row says.
pub struct CategoryModel {
    pub id: u32,
    pub name: Seq<char>,
}

/// What a record contributes, as plain values.
pub struct NormalizedModel {
    pub game: Option<GameModel>,
    pub categories: Seq<CategoryModel>,
    pub game_categories: Seq<GameCategoryRow>,
    pub dlc: Seq<u32>,
}

/// The text of an optional string.
pub open spec fn text_of(s: Option<String>) -> Option<Seq<char>> {
    match s {
        Some(t) => Some(t@),
        None => None,
    }
}

impl View for GameRow {
    type V = GameModel;

    open spec fn view(&self) -> GameModel {
        GameModel {
            appid: self.appid,
            name: self.name@,
            controller_support: self.controller_support,
            has_achievements: self.has_achievements,
            supports_windows: self.supports_windows,
            supports_mac: self.supports_mac,
            supports_linux: self.supports_linux,
            price: self.price,
            total_recommendations: self.total_recommendations,
            release_date: text_of(self.release_date),
            header_image: text_of(self.header_image),
        }
    }
}

impl View for CategoryRow {
    type V = CategoryModel;

    open spec fn view(&self) -> CategoryModel {
        CategoryModel { id: self.id, name: self.name@ }
    }
}

impl View for Normalized {
    type V = NormalizedModel;

    open spec fn view(&self) -> NormalizedModel {
        NormalizedModel {
            game: match self.game {
                Some(g) => Some(g@),
                None => None,
            },
            categories: Seq::new(self.categories@.len(), |i: int| self.categories@[i]@),
            game_categories: self.game_categories@,
            dlc: self.dlc@,
        }
    }
}

/// A contribution without rows and without DLC.
pub open spec fn nothing() -> NormalizedModel {
    NormalizedModel {
        game: None,
        categories: Seq::empty(),
        game_categories: Seq::empty(),
        dlc: Seq::empty(),
    }
}

/// Whether the record is tagged as a game. Every other tag, and a record
/// without a tag, is filtered out.
pub open spec fn is_game(data: AppData) -> bool {
    match data.kind {
        Some(k) => k@ == "game"@,
        None => false,
    }
}

/// The stored value of a controller support tag.
pub open spec fn controller_code(tag: Option<Seq<char>>) -> u8 {
    match tag {
        Some(t) => if t == "none"@ {
            CONTROLLER_NONE
        } else if t == "partial"@ {
            CONTROLLER_PARTIAL
        } else if t == "full"@ {
            CONTROLLER_FULL
        } else {
            CONTROLLER_OTHER
        },
        None => CONTROLLER_OTHER,
    }
}

/// The games row of a record, whatever its tag.
pub open spec fn game_of(data: AppData) -> GameModel {
    GameModel {
        appid: data.steam_appid,
        name: data.name@,
        controller_support: controller_code(text_of(data.controller_support)),
        has_achievements: data.achievements.total > 0,
        supports_windows: match data.platforms {
            Some(p) => Some(p.windows),
            None => None,
        },
        supports_mac: match data.platforms {
            Some(p) => Some(p.mac),
            None => None,
        },
        supports_linux: match data.platforms {
            Some(p) => Some(p.linux),
            None => None,
        },
        price: match data.price_overview {
            Some(p) => Some(p.initial),
            None => None,
        },
        total_recommendations: match data.recommendations {
            Some(r) => Some(r.total),
            None => None,
        },
        release_date: match data.release_date {
            Some(d) => Some(d.date@),
            None => None,
        },
        header_image: text_of(data.header_image),
    }
}

/// The category tags of a record, empty when it lists none.
pub open spec fn tags_of(data: AppData) -> Seq<Category> {
    match data.categories {
        Some(v) => v@,
        None => Seq::empty(),
    }
}

/// The DLC ids of a record, empty when it lists none.
pub open spec fn dlc_of(data: AppData) -> Seq<u32> {
    match data.dlc {
        Some(v) => v@,
        None => Seq::empty(),
    }
}

/// What a record contributes. A record that is not a game contributes no row,
/// but its DLC ids are forwarded all the same. A game contributes its row, one
/// categories row and one joining row per tag, in the order of the tags.
pub open spec fn normalized(data: AppData) -> NormalizedModel {
    if is_game(data) {
        NormalizedModel {
            game: Some(game_of(data)),
            categories: Seq::new(
                tags_of(data).len(),
                |i: int| CategoryModel { id: tags_of(data)[i].id, name: tags_of(data)[i].description@ },
            ),
            game_categories: Seq::new(
                tags_of(data).len(),
                |i: int| GameCategoryRow { appid: data.steam_appid, categoryid: tags_of(data)[i].id },
            ),
            dlc: dlc_of(data),
        }
    } else {
        NormalizedModel {
            game: None,
            categories: Seq::empty(),
            game_categories: Seq::empty(),
            dlc: dlc_of(data),
        }
    }
}

/// Whether `text` spells `word`.
fn spells(text: &String, word: &str) -> (same: bool)
    ensures
        same == (text@ == word@),
{
    let other: String = String::from_str(word);
    *text == other
}

/// Maps a controller support tag to its stored value: `none`, `partial` and
/// `full` have a value each, anything else and a missing tag share one.
pub fn controller_support_code(tag: &Option<String>) -> (code: u8)
    ensures
        code == controller_code(text_of(*tag)),
{
    match tag {
        Some(t) => {
            if spells(t, "none") {
                CONTROLLER_NONE
            } else if spells(t, "partial") {
                CONTROLLER_PARTIAL
            } else if spells(t, "full") {
                CONTROLLER_FULL
            } else {
                CONTROLLER_OTHER
            }
        },
        None => CONTROLLER_OTHER,
    }
}

/// Tells whether a record is tagged as a game.
pub fn has_game_kind(data: &AppData) -> (game: bool)
    ensures
        game == is_game(*data),
{
    match &data.kind {
        Some(k) => spells(k, "game"),
        None => false,
    }
}

/// Builds the games row of a record.
pub fn game_row(data: &AppData) -> (row: GameRow)
    ensures
        row@ == game_of(*data),
{
    let price: Option<u32> = match &data.price_overview {
        Some(p) => Some(p.initial),
        None => None,
    };
    let release_date: Option<String> = match &data.release_date {
        Some(d) => Some(d.date.clone()),
        None => None,
    };
    let header_image: Option<String> = match &data.header_image {
        Some(url) => Some(url.clone()),
        None => None,
    };
    let total_recommendations: Option<u32> = match &data.recommendations {
        Some(r) => Some(r.total),
        None => None,
    };
    let (windows, mac, linux): (Option<bool>, Option<bool>, Option<bool>) = match &data.platforms {
        Some(p) => (Some(p.windows), Some(p.mac), Some(p.linux)),
        None => (None, None, None),
    };
    GameRow {
        appid: data.steam_appid,
        name: data.name.clone(),
        controller_support: controller_support_code(&data.controller_support),
        has_achievements: data.achievements.total > 0,
        supports_windows: windows,
        supports_mac: mac,
        supports_linux: linux,
        price,
        total_recommendations,
        release_date,
        header_image,
    }
}

/// Normalizes one detail record.
pub fn normalize(data: &AppData) -> (out: Normalized)
    ensures
        out@ == normalized(*data),
        out.categories@.len() == normalized(*data).categories.len(),
{
    let dlc: Vec<u32> = match &data.dlc {
        Some(ids) => ids.clone(),
        None => Vec::new(),
    };
    if !has_game_kind(data) {
        let out = Normalized { game: None, categories: Vec::new(), game_categories: Vec::new(), dlc };
        assert(out@.categories =~= Seq::<CategoryModel>::empty());
        return out;
    }
    let game = game_row(data);
    let mut categories: Vec<CategoryRow> = Vec::new();
    let mut game_categories: Vec<GameCategoryRow> = Vec::new();
    if let Some(tags) = &data.categories {
        let mut i: usize = 0;
        while i < tags.len()
            invariant
                i <= tags.len(),
                tags@ == tags_of(*data),
                categories@.len() == i,
                game_categories@.len() == i,
                forall|j: int| 0 <= j < i ==> (#[trigger] categories@[j])@ == (CategoryModel {
                    id: tags@[j].id,
                    name: tags@[j].description@,
                }),
                forall|j: int| 0 <= j < i ==> #[trigger] game_categories@[j] == (GameCategoryRow {
                    appid: data.steam_appid,
                    categoryid: tags@[j].id,
                }),
            decreases tags.len() - i,
        {
            let tag = &tags[i];
            categories.push(CategoryRow { id: tag.id, name: tag.description.clone() });
            game_categories.push(GameCategoryRow { appid: data.steam_appid, categoryid: tag.id });
            i = i + 1;
        }
    }
    let out = Normalized { game: Some(game), categories, game_categories, dlc };
    assert(out@.categories =~= normalized(*data).categories);
    assert(out@.game_categories =~= normalized(*data).game_categories);
    out
}

} // verus!
