//! A whole run as a mathematical object: the state machine of the pipeline
//! applied to every catalog entry in turn, together with the tables that its
//! rows are written to. The theorems say what holds of every run.

use vstd::prelude::*;
use crate::fetcher::resolved_for;
use crate::limiter::BATCH_SIZE;
use crate::pipeline::{after_record, after_step, contribution, record_of, step_of, RunModel, Step};
use crate::storage::{
    covers_stays,
    extends,
    extends_chain,
    names_unique,
    written,
    written_absorbed,
    written_extends,
    written_games,
    StoreModel,
};
use crate::types::App;

verus! {

/// A run in progress: the state of the pipeline, the tables, the ids that
/// were fetched so far, and the number of cooldowns taken.
pub struct Harvest {
    pub run: RunModel,
    pub store: StoreModel,
    pub fetched: Seq<u32>,
    pub pauses: nat,
}

/// What the remote side answers for `appid`: the envelope it has for the id,
/// or nothing.
pub open spec fn reply_for(replies: Map<u32, App>, appid: u32) -> Option<App> {
    if replies.contains_key(appid) {
        Some(replies[appid])
    } else {
        None
    }
}

/// The run model takes the envelope the remote side has for an id as it is;
/// the driver resolves the reply first. Both come to the same: what is
/// recorded and written for the id does not differ.
pub proof fn resolving_changes_no_record(m: RunModel, replies: Map<u32, App>, appid: u32)
    ensures
        record_of(resolved_for(replies, appid)) == record_of(reply_for(replies, appid)),
        contribution(resolved_for(replies, appid)) == contribution(reply_for(replies, appid)),
        after_record(m, appid, resolved_for(replies, appid)) == after_record(
            m,
            appid,
            reply_for(replies, appid),
        ),
{
}

/// The run after its next catalog entry was handled: skipped, or fetched,
/// recorded and written.
pub open spec fn handle(h: Harvest, replies: Map<u32, App>) -> Harvest {
    match step_of(h.run) {
        Step::Finished => h,
        Step::Skip { appid } => Harvest { run: after_step(h.run), ..h },
        Step::Fetch { appid, cooldown } => Harvest {
            run: after_record(after_step(h.run), appid, reply_for(replies, appid)),
            store: written(h.store, contribution(reply_for(replies, appid))),
            fetched: h.fetched.push(appid),
            pauses: if cooldown {
                h.pauses + 1
            } else {
                h.pauses
            },
        },
    }
}

/// The run after its next `n` catalog entries were handled.
pub open spec fn handle_many(h: Harvest, replies: Map<u32, App>, n: nat) -> Harvest
    decreases n,
{
    if n == 0 {
        h
    } else {
        handle(handle_many(h, replies, (n - 1) as nat), replies)
    }
}

/// A run at the start of `catalog`, before its first request.
pub open spec fn begin(catalog: Seq<u32>, processed: Set<u32>, store: StoreModel) -> Harvest {
    Harvest {
        run: RunModel { catalog, position: 0, processed, requests: 0 },
        store,
        fetched: Seq::empty(),
        pauses: 0,
    }
}

/// A run over the whole of `catalog`.
pub open spec fn complete(
    catalog: Seq<u32>,
    processed: Set<u32>,
    store: StoreModel,
    replies: Map<u32, App>,
) -> Harvest {
    handle_many(begin(catalog, processed, store), replies, catalog.len())
}

/// Every catalog entry behind the run is handled.
pub open spec fn behind_is_processed(h: Harvest) -> bool {
    forall|i: int|
        0 <= i < h.run.position && i < h.run.catalog.len() ==> h.run.processed.contains(
            #[trigger] h.run.catalog[i],
        )
}

/// Each record carries the id under which it was asked for.
pub open spec fn faithful(replies: Map<u32, App>) -> bool {
    forall|appid: u32| #[trigger]
        replies.contains_key(appid) ==> match record_of(Some(replies[appid])) {
            Some(data) => data.steam_appid == appid,
            None => true,
        }
}

/// Handling one entry moves the run by at most one entry and takes nothing
/// away: the catalog stays, the processed-set and the tables only grow, and
/// the entry that was handled is in the processed-set.
pub proof fn handle_keeps(h: Harvest, replies: Map<u32, App>)
    ensures
        handle(h, replies).run.catalog == h.run.catalog,
        handle(h, replies).run.position == if h.run.position < h.run.catalog.len() {
            h.run.position + 1
        } else {
            h.run.position
        },
        h.run.processed.subset_of(handle(h, replies).run.processed),
        extends(handle(h, replies).store, h.store),
        names_unique(h.store) ==> names_unique(handle(h, replies).store),
        behind_is_processed(h) ==> behind_is_processed(handle(h, replies)),
{
    let g = handle(h, replies);
    match step_of(h.run) {
        Step::Finished => {},
        Step::Skip { appid } => {},
        Step::Fetch { appid, cooldown } => {
            written_extends(h.store, contribution(reply_for(replies, appid)));
        },
    }
    if behind_is_processed(h) {
        assert forall|i: int|
            0 <= i < g.run.position && i < g.run.catalog.len() implies g.run.processed.contains(
            #[trigger] g.run.catalog[i],
        ) by {
            if i < h.run.position {
                assert(h.run.processed.contains(h.run.catalog[i]));
            }
        }
    }
}

/// Handling entries takes nothing away, however many.
pub proof fn handle_many_keeps(h: Harvest, replies: Map<u32, App>, n: nat)
    ensures
        handle_many(h, replies, n).run.catalog == h.run.catalog,
        h.run.position + n <= h.run.catalog.len() ==> handle_many(h, replies, n).run.position
            == h.run.position + n,
        h.run.processed.subset_of(handle_many(h, replies, n).run.processed),
        extends(handle_many(h, replies, n).store, h.store),
        names_unique(h.store) ==> names_unique(handle_many(h, replies, n).store),
        behind_is_processed(h) ==> behind_is_processed(handle_many(h, replies, n)),
    decreases n,
{
    if n > 0 {
        let before = handle_many(h, replies, (n - 1) as nat);
        handle_many_keeps(h, replies, (n - 1) as nat);
        handle_keeps(before, replies);
        extends_chain(handle(before, replies).store, before.store, h.store);
    } else {
        extends_chain(h.store, h.store, h.store);
    }
}

/// Handling `a` entries and then `b` more is handling `a + b`.
pub proof fn handle_many_split(h: Harvest, replies: Map<u32, App>, a: nat, b: nat)
    ensures
        handle_many(h, replies, a + b) == handle_many(handle_many(h, replies, a), replies, b),
    decreases b,
{
    if b > 0 {
        handle_many_split(h, replies, a, (b - 1) as nat);
        assert((a + b - 1) as nat == a + (b - 1) as nat);
    }
}

/// The processed-set only grows: after a run it holds every id it held
/// before, whatever the catalog and whatever the remote side answered.
pub proof fn processed_set_only_grows(
    catalog: Seq<u32>,
    processed: Set<u32>,
    store: StoreModel,
    replies: Map<u32, App>,
)
    ensures
        processed.subset_of(complete(catalog, processed, store, replies).run.processed),
{
    handle_many_keeps(begin(catalog, processed, store), replies, catalog.len());
}

/// After a run every id of the catalog is in the processed-set, fetched or
/// not, so that a run which starts from that set makes no request at all.
pub proof fn complete_run_handles_every_entry(
    catalog: Seq<u32>,
    processed: Set<u32>,
    store: StoreModel,
    replies: Map<u32, App>,
)
    ensures
        forall|i: int|
            0 <= i < catalog.len() ==> complete(
                catalog,
                processed,
                store,
                replies,
            ).run.processed.contains(#[trigger] catalog[i]),
{
    let start = begin(catalog, processed, store);
    handle_many_keeps(start, replies, catalog.len());
    let end = complete(catalog, processed, store, replies);
    assert forall|i: int| 0 <= i < catalog.len() implies end.run.processed.contains(
        #[trigger] catalog[i],
    ) by {
        assert(end.run.processed.contains(end.run.catalog[i]));
    }
}

/// A run over a catalog whose ids are all handled skips every entry: it makes
/// no request, takes no cooldown and leaves the set and the tables alone.
pub proof fn handled_catalog_is_skipped(
    catalog: Seq<u32>,
    processed: Set<u32>,
    store: StoreModel,
    replies: Map<u32, App>,
    n: nat,
)
    requires
        forall|i: int| 0 <= i < catalog.len() ==> processed.contains(#[trigger] catalog[i]),
        n <= catalog.len(),
    ensures
        handle_many(begin(catalog, processed, store), replies, n) == (Harvest {
            run: RunModel { position: n, ..begin(catalog, processed, store).run },
            ..begin(catalog, processed, store)
        }),
    decreases n,
{
    if n > 0 {
        handled_catalog_is_skipped(catalog, processed, store, replies, (n - 1) as nat);
        assert(processed.contains(catalog[n - 1]));
    }
}

/// What a finished run has handled is never asked for again: a later run
/// over the same catalog that starts from the set the first one ended with
/// makes no request, whatever the remote side would answer by then, and
/// changes nothing.
pub proof fn finished_run_is_not_repeated(
    catalog: Seq<u32>,
    processed: Set<u32>,
    store: StoreModel,
    replies: Map<u32, App>,
    later_store: StoreModel,
    later_replies: Map<u32, App>,
)
    ensures
        ({
            let done = complete(catalog, processed, store, replies).run.processed;
            let later = complete(catalog, done, later_store, later_replies);
            &&& later.fetched.len() == 0
            &&& later.pauses == 0
            &&& later.store == later_store
            &&& later.run.processed == done
        }),
{
    let done = complete(catalog, processed, store, replies).run.processed;
    complete_run_handles_every_entry(catalog, processed, store, replies);
    handled_catalog_is_skipped(catalog, done, later_store, later_replies, catalog.len());
}

/// A second run that resumes from a checkpoint of the first, over the tables
/// the first one left: after `j` entries it has written nothing new, and from
/// the checkpoint on it knows the same ids as the first run did.
proof fn resumed_run_tracks(
    catalog: Seq<u32>,
    processed: Set<u32>,
    store: StoreModel,
    replies: Map<u32, App>,
    k: nat,
    j: nat,
)
    requires
        k <= catalog.len(),
        j <= catalog.len(),
    ensures
        ({
            let first = begin(catalog, processed, store);
            let checkpoint = handle_many(first, replies, k).run.processed;
            let tables = complete(catalog, processed, store, replies).store;
            let second = handle_many(begin(catalog, checkpoint, tables), replies, j);
            &&& second.store == tables
            &&& second.run.catalog == catalog
            &&& second.run.position == j
            &&& j <= k ==> second.run.processed == checkpoint
            &&& j >= k ==> second.run.processed == handle_many(first, replies, j).run.processed
        }),
    decreases j,
{
    let first = begin(catalog, processed, store);
    let at_checkpoint = handle_many(first, replies, k);
    let checkpoint = at_checkpoint.run.processed;
    let tables = complete(catalog, processed, store, replies).store;
    let restart = begin(catalog, checkpoint, tables);
    if j > 0 {
        let i = (j - 1) as nat;
        resumed_run_tracks(catalog, processed, store, replies, k, i);
        let second = handle_many(restart, replies, i);
        let first_i = handle_many(first, replies, i);
        let first_j = handle_many(first, replies, j);
        handle_many_keeps(first, replies, i);
        handle_many_keeps(first, replies, j);
        handle_many_keeps(first, replies, k);
        if i < k {
            assert(at_checkpoint.run.processed.contains(at_checkpoint.run.catalog[i as int]));
        } else {
            assert(first_j == handle(first_i, replies));
            match step_of(first_i.run) {
                Step::Finished => {},
                Step::Skip { appid } => {},
                Step::Fetch { appid, cooldown } => {
                    let rows = contribution(reply_for(replies, appid));
                    written_extends(first_i.store, rows);
                    handle_many_split(first, replies, j, (catalog.len() - j) as nat);
                    handle_many_keeps(first_j, replies, (catalog.len() - j) as nat);
                    covers_stays(first_j.store, tables, rows);
                    written_absorbed(tables, rows);
                },
            }
        }
    }
}

/// Running the pipeline a second time over the same catalog and the same
/// replies leaves the tables exactly as the first run left them: no row is
/// added, duplicated or overwritten. The second run may resume from any
/// checkpoint of the first: the set it started from (`k` is 0, nothing was
/// saved), the set it ended with, or the set as it stood after any `k`
/// entries.
pub proof fn rerun_changes_no_row(
    catalog: Seq<u32>,
    processed: Set<u32>,
    store: StoreModel,
    replies: Map<u32, App>,
    k: nat,
)
    requires
        k <= catalog.len(),
    ensures
        ({
            let first = complete(catalog, processed, store, replies);
            let checkpoint = handle_many(begin(catalog, processed, store), replies, k).run.processed;
            complete(catalog, checkpoint, first.store, replies).store == first.store
        }),
{
    resumed_run_tracks(catalog, processed, store, replies, k, catalog.len());
}

/// Once a fetched record has listed `dlc` among its DLC, the id is in the
/// processed-set for the rest of the run and is never fetched, and no games
/// row is written for it. The run is about to fetch `parent`; the replies are
/// faithful, and `dlc` is not in the games table when `parent` has been
/// handled (it is neither `parent` itself nor a game stored earlier).
pub proof fn dlc_is_never_stored(
    h: Harvest,
    replies: Map<u32, App>,
    parent: u32,
    dlc: u32,
    n: nat,
)
    requires
        step_of(h.run) matches Step::Fetch { appid, .. } && appid == parent,
        contribution(reply_for(replies, parent)).dlc.contains(dlc),
        faithful(replies),
        !handle(h, replies).store.games.contains_key(dlc),
        n >= 1,
    ensures
        handle_many(h, replies, n).run.processed.contains(dlc),
        !handle_many(h, replies, n).store.games.contains_key(dlc),
        handle_many(h, replies, n).fetched.len() >= h.fetched.len() + 1,
        forall|i: int|
            h.fetched.len() + 1 <= i < handle_many(h, replies, n).fetched.len() ==> handle_many(
                h,
                replies,
                n,
            ).fetched[i] != dlc,
    decreases n,
{
    if n == 1 {
        assert(handle_many(h, replies, 0) == h);
        assert(contribution(reply_for(replies, parent)).dlc.to_set().contains(dlc));
    } else {
        let before = handle_many(h, replies, (n - 1) as nat);
        dlc_is_never_stored(h, replies, parent, dlc, (n - 1) as nat);
        match step_of(before.run) {
            Step::Finished => {},
            Step::Skip { appid } => {},
            Step::Fetch { appid, cooldown } => {
                assert(appid != dlc);
                written_games(before.store, contribution(reply_for(replies, appid)), dlc);
            },
        }
    }
}

/// The counter of the current batch never passes the batch size, and the
/// requests of a run are those of its full batches and of the current one.
/// So a cooldown is taken exactly before a request that follows a full
/// batch: when the number of requests made so far is a positive multiple of
/// the batch size. A run that made `f` requests took `(f - 1) / BATCH_SIZE`
/// cooldowns, and none without a request.
pub proof fn cooldowns_follow_full_batches(
    catalog: Seq<u32>,
    processed: Set<u32>,
    store: StoreModel,
    replies: Map<u32, App>,
    n: nat,
)
    ensures
        ({
            let h = handle_many(begin(catalog, processed, store), replies, n);
            &&& h.run.requests <= BATCH_SIZE
            &&& h.fetched.len() == h.pauses * BATCH_SIZE + h.run.requests
            &&& h.fetched.len() > 0 ==> h.run.requests >= 1
            &&& h.pauses == if h.fetched.len() == 0 {
                0
            } else {
                (h.fetched.len() - 1) / (BATCH_SIZE as int)
            }
            &&& step_of(h.run) matches Step::Fetch { cooldown, .. } ==> (cooldown <==> h.fetched.len()
                > 0 && h.fetched.len() % (BATCH_SIZE as nat) == 0)
        }),
    decreases n,
{
    if n > 0 {
        cooldowns_follow_full_batches(catalog, processed, store, replies, (n - 1) as nat);
    }
}

} // verus!
