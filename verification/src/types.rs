//! The shapes of the remote replies: the catalog listing and the detail
//! envelope with its optional fields.

use vstd::prelude::*;

verus! {

/// Recommendation counter of a detail record.
#[derive(Clone, Debug)]
pub struct Recommendations {
    pub total: u32,
}

/// Operating systems a title runs on; present only when the reply lists them.
#[derive(Clone, Debug)]
pub struct Platforms {
    pub windows: bool,
    pub mac: bool,
    pub linux: bool,
}

/// Release date as the remote side prints it.
#[derive(Clone, Debug)]
pub struct ReleaseDate {
    pub date: String,
}

/// Price block; only the initial listed price is kept.
#[derive(Clone, Debug)]
pub struct Price {
    pub initial: u32,
}

/// Achievement counter; a reply without the block counts as zero.
#[derive(Clone, Debug)]
pub struct Achievements {
    pub total: u32,
}

impl Default for Achievements {
    fn default() -> (a: Achievements)
        ensures
            a.total == 0,
    {
        Achievements { total: 0 }
    }
}

/// One category tag of a detail record.
#[derive(Clone, Debug)]
pub struct Category {
    pub id: u32,
    pub description: String,
}

/// The detail record of one catalog entry.
#[derive(Clone, Debug)]
pub struct AppData {
    pub kind: Option<String>,
    pub steam_appid: u32,
    pub name: String,
    pub controller_support: Option<String>,
    pub price_overview: Option<Price>,
    pub release_date: Option<ReleaseDate>,
    pub header_image: Option<String>,
    pub platforms: Option<Platforms>,
    pub achievements: Achievements,
    pub categories: Option<Vec<Category>>,
    pub dlc: Option<Vec<u32>>,
    pub recommendations: Option<Recommendations>,
}

/// The envelope the detail endpoint wraps a record in.
#[derive(Clone, Debug)]
pub struct App {
    pub success: bool,
    pub data: Option<AppData>,
}

/// One entry of the catalog listing.
#[derive(Clone, Debug)]
pub struct AppInfo {
    pub appid: u32,
}

/// The list of catalog entries, in the order the remote side gave them.
#[derive(Clone, Debug)]
pub struct AppList {
    pub apps: Vec<AppInfo>,
}

/// The reply of the catalog endpoint.
#[derive(Clone, Debug)]
pub struct SteamApps {
    pub applist: AppList,
}

} // verus!
