//! The harvest as a state machine. The driver asks for the next step, does
//! the outside work the step names, and hands a fetched reply back to be
//! recorded. Nothing here waits, sends or writes.

use vstd::prelude::*;
use crate::limiter::{charge_model, Batcher};
use crate::normalizer::{normalize, normalized, nothing, Normalized, NormalizedModel};
use crate::progress::ProcessedSet;
use crate::types::{App, AppData, SteamApps};

verus! {

/// What the driver does next.
#[derive(Clone, Copy, Debug, PartialEq, Eq)]
pub enum Step {
    /// The catalog is exhausted.
    Finished,
    /// The entry is handled already; no request is made for it.
    Skip { appid: u32 },
    /// The detail record of `appid` is to be fetched. With `cooldown` set the
    /// batch is full: the driver first saves a checkpoint and stays idle for
    /// the cooldown, and this request opens the next batch.
    Fetch { appid: u32, cooldown: bool },
}

/// What recording a reply gave.
#[derive(Clone, Debug, PartialEq, Eq)]
pub enum Outcome {
    /// No envelope came back, or one that reports no success; the id counts
    /// as handled.
    Unresolved,
    /// The envelope reports success but carries no record; the id counts as
    /// handled.
    Empty,
    /// A record came back; `rows` is what it contributes to the tables.
    Fetched { name: String, rows: Normalized },
}

/// The state of a run as plain values.
pub struct RunModel {
    /// The catalog ids in the order they are worked through.
    pub catalog: Seq<u32>,
    /// How many entries are behind the run.
    pub position: nat,
    /// The ids that are handled.
    pub processed: Set<u32>,
    /// The chargeable requests counted in the current batch.
    pub requests: nat,
}

/// The step that a run in state `m` takes.
pub open spec fn step_of(m: RunModel) -> Step {
    if m.position >= m.catalog.len() {
        Step::Finished
    } else if m.processed.contains(m.catalog[m.position as int]) {
        Step::Skip { appid: m.catalog[m.position as int] }
    } else {
        Step::Fetch { appid: m.catalog[m.position as int], cooldown: charge_model(m.requests).0 }
    }
}

/// The state after that step was handed out: the entry is behind the run,
/// and a fetch is counted.
pub open spec fn after_step(m: RunModel) -> RunModel {
    if m.position >= m.catalog.len() {
        m
    } else if m.processed.contains(m.catalog[m.position as int]) {
        RunModel { position: m.position + 1, ..m }
    } else {
        RunModel { position: m.position + 1, requests: charge_model(m.requests).1, ..m }
    }
}

/// The record that a reply carries: none without an envelope, without
/// success, or without data.
pub open spec fn record_of(reply: Option<App>) -> Option<AppData> {
    match reply {
        Some(app) => if app.success {
            app.data
        } else {
            None
        },
        None => None,
    }
}

/// Whether a reply holds an envelope that reports success.
pub open spec fn answered(reply: Option<App>) -> bool {
    match reply {
        Some(app) => app.success,
        None => false,
    }
}

/// What a reply contributes to the tables and to the processed-set.
pub open spec fn contribution(reply: Option<App>) -> NormalizedModel {
    match record_of(reply) {
        Some(data) => normalized(data),
        None => nothing(),
    }
}

/// The state after the reply for `appid` was recorded: the id is handled, and
/// so is every DLC id the record lists.
pub open spec fn after_record(m: RunModel, appid: u32, reply: Option<App>) -> RunModel {
    RunModel {
        processed: m.processed.insert(appid).union(contribution(reply).dlc.to_set()),
        ..m
    }
}

/// One run over a catalog.
#[derive(Clone, Debug)]
pub struct Run {
    catalog: SteamApps,
    position: usize,
    processed: ProcessedSet,
    limiter: Batcher,
}

impl View for Run {
    type V = RunModel;

    closed spec fn view(&self) -> RunModel {
        RunModel {
            catalog: Seq::new(
                self.catalog.applist.apps@.len(),
                |i: int| self.catalog.applist.apps@[i].appid,
            ),
            position: self.position as nat,
            processed: self.processed@,
            requests: self.limiter.count(),
        }
    }
}

/// The ids of a catalog listing, in its order.
pub open spec fn ids_of(catalog: SteamApps) -> Seq<u32> {
    Seq::new(catalog.applist.apps@.len(), |i: int| catalog.applist.apps@[i].appid)
}

impl Run {
    /// A run at the start of `catalog` that knows `processed` as handled.
    pub fn new(catalog: SteamApps, processed: ProcessedSet) -> (run: Run)
        ensures
            run@ == (RunModel {
                catalog: ids_of(catalog),
                position: 0,
                processed: processed@,
                requests: 0,
            }),
            run.processed_set() == processed,
    {
        Run { catalog, position: 0, processed, limiter: Batcher::new() }
    }

    /// The processed-set as it stands.
    pub closed spec fn processed_set(&self) -> ProcessedSet {
        self.processed
    }

    /// The processed-set as it stands, for a checkpoint.
    pub fn processed(&self) -> (set: &ProcessedSet)
        ensures
            *set == self.processed_set(),
            set@ == self@.processed,
    {
        &self.processed
    }

    /// How many catalog entries are behind the run.
    pub fn position(&self) -> (n: usize)
        ensures
            n == self@.position,
    {
        self.position
    }

    /// How many entries the catalog has.
    pub fn total(&self) -> (n: usize)
        ensures
            n == self@.catalog.len(),
    {
        self.catalog.applist.apps.len()
    }

    /// The chargeable requests counted in the current batch.
    pub fn requests_made(&self) -> (n: u32)
        ensures
            n == self@.requests,
    {
        self.limiter.requests_made()
    }

    /// Hands out the next step and moves past the entry it is about. An entry
    /// that is handled is skipped and costs nothing; any other is fetched and
    /// counted, after a cooldown where the batch was full.
    pub fn advance(&mut self) -> (step: Step)
        ensures
            step == step_of(old(self)@),
            final(self)@ == after_step(old(self)@),
            final(self).processed_set() == old(self).processed_set(),
    {
        if self.position >= self.catalog.applist.apps.len() {
            return Step::Finished;
        }
        let appid: u32 = self.catalog.applist.apps[self.position].appid;
        self.position = self.position + 1;
        if self.processed.contains(appid) {
            Step::Skip { appid }
        } else {
            let cooldown = self.limiter.charge();
            Step::Fetch { appid, cooldown }
        }
    }

    /// Records the reply to the fetch of `appid`. The id is handled from now
    /// on whatever came back, and so is each DLC id of the record, which is
    /// therefore never fetched. The rows of the record are handed out to be
    /// written.
    pub fn record(&mut self, appid: u32, reply: Option<App>) -> (outcome: Outcome)
        ensures
            final(self)@ == after_record(old(self)@, appid, reply),
            old(self)@.processed.subset_of(final(self)@.processed),
            final(self).processed_set().listing() == old(self).processed_set().listing().push(appid)
                + contribution(reply).dlc,
            match record_of(reply) {
                Some(data) => outcome matches Outcome::Fetched { name, rows } && name@ == data.name@
                    && rows@ == normalized(data),
                None => if answered(reply) {
                    outcome is Empty
                } else {
                    outcome is Unresolved
                },
            },
    {
        self.processed.insert(appid);
        let (success, record) = open_envelope(reply);
        match record {
            Some(data) => {
                let rows = normalize(&data);
                self.processed.extend(&rows.dlc);
                Outcome::Fetched { name: data.name, rows }
            },
            None => {
                proof {
                    unlisted(self.processed@);
                }
                if success {
                    Outcome::Empty
                } else {
                    Outcome::Unresolved
                }
            },
        }
    }
}

/// Takes a reply apart: whether it reports success, and the record it
/// carries.
fn open_envelope(reply: Option<App>) -> (parts: (bool, Option<AppData>))
    ensures
        parts.0 == answered(reply),
        parts.1 == record_of(reply),
{
    match reply {
        Some(app) => if app.success {
            (true, app.data)
        } else {
            (false, None)
        },
        None => (false, None),
    }
}

/// A set together with the members of an empty list is the set itself.
proof fn unlisted(s: Set<u32>)
    ensures
        s.union(Seq::<u32>::empty().to_set()) == s,
        Seq::<u32>::empty().to_set() == Set::<u32>::empty(),
{
    assert(Seq::<u32>::empty().to_set() =~= Set::<u32>::empty());
    assert(s.union(Seq::<u32>::empty().to_set()) =~= s);
}

} // verus!
