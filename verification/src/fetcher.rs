//! The two remote endpoints: where a request goes, and how the envelope of a
//! detail reply is read.

use vstd::prelude::*;
use std::collections::HashMap;
use crate::digits::{decimal, decimal_text};
use crate::types::App;

verus! {

/// Address of the catalog endpoint, which takes no parameter.
pub const CATALOG_URL: &'static str = "https://api.steampowered.com/ISteamApps/GetAppList/v2/";

/// Address of the detail endpoint up to the id that is asked for.
pub const DETAIL_URL: &'static str = "https://store.steampowered.com/api/appdetails?appids=";

/// The address that is asked for the detail record of `appid`.
pub fn detail_url(appid: u32) -> (url: String)
    ensures
        url@ == DETAIL_URL@ + decimal(appid as nat),
{
    let id = decimal_text(appid);
    String::from_str(DETAIL_URL).concat(id.as_str())
}

/// What an envelope resolves to: itself when it reports success, nothing
/// otherwise.
pub open spec fn accepted(app: App) -> Option<App> {
    if app.success {
        Some(app)
    } else {
        None
    }
}

/// What a detail reply resolves to for the id that was asked for. The reply
/// maps that id to an envelope: the envelope counts when it reports success.
/// A reply without an entry under the id resolves to nothing, whatever else
/// it holds.
pub open spec fn resolved_for(entries: Map<u32, App>, appid: u32) -> Option<App> {
    if entries.contains_key(appid) {
        accepted(entries[appid])
    } else {
        None
    }
}

/// Reads a detail reply for `appid`: the envelope under that id when it
/// reports success, and `None` for an unsuccessful one or a reply that has no
/// entry under the id.
pub fn resolve(entries: HashMap<u32, App>, appid: u32) -> (reply: Option<App>)
    ensures
        reply == resolved_for(entries@, appid),
{
    broadcast use vstd::std_specs::hash::group_hash_axioms;

    let mut entries = entries;
    match entries.remove(&appid) {
        Some(app) => if app.success {
            Some(app)
        } else {
            None
        },
        None => None,
    }
}

} // verus!
