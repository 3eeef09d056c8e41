//! The decisions of a run, as a machine from events to actions.
use vstd::prelude::*;
use crate::records::Network;
use crate::catalog::{Catalog, join, joined};
use crate::handle::{OPath, StationTag};

verus! {

/// Where a run stands.
#[derive(Clone, Copy, PartialEq, Eq, Structural, Debug)]
pub enum Phase {
    /// The station's path is being resolved into a live reference.
    Resolving,
    /// A scan has been asked for.
    Scanning,
    /// The ranked list has been asked for.
    Listing,
    /// Nothing more is to be done.
    Done,
}

/// What the caller reports back after carrying out an action.
#[derive(Debug)]
pub enum Event {
    /// The station reference was obtained.
    Resolved,
    /// The scan call returned; `ok` is false when it failed.
    Scanned { ok: bool },
    /// The station's ranked (path, signal) pairs.
    Listed(Vec<(String, i16)>),
    /// A connection or call failed.
    CallFailed,
}

/// What the caller is to do next.
#[derive(Debug)]
pub enum Action {
    /// Resolve the station's path into a live reference.
    Resolve(OPath<StationTag>),
    /// Ask the station to scan.
    Scan,
    /// Ask the station for its ranked networks.
    ListOrdered,
    /// Print these lines, one per network, and end successfully.
    Finish(Vec<String>),
    /// End with the failure that was reported.
    Abort,
}

/// The decisions of one run: resolve the station, scan, list, join.
#[derive(Debug)]
pub struct Session {
    pub phase: Phase,
    pub networks: Vec<(String, Network)>,
}

impl Session {
    /// Starts a run on a catalog: with a station, resolve it first; without
    /// one there is nothing to scan or list, and the run ends with no output.
    pub fn start(catalog: Catalog) -> (r: (Session, Action))
        ensures
            r.0.networks@ == catalog.networks@,
            match catalog.station {
                Some(h) => r.0.phase == Phase::Resolving && (r.1 matches Action::Resolve(g) && g@
                    == h@),
                None => r.0.phase == Phase::Done && (r.1 matches Action::Finish(lines)
                    && lines@.len() == 0),
            },
    {
        let Catalog { station, networks } = catalog;
        match station {
            Some(h) => (Session { phase: Phase::Resolving, networks }, Action::Resolve(h)),
            None => (Session { phase: Phase::Done, networks }, Action::Finish(Vec::new())),
        }
    }

    /// Takes the outcome of the last action and decides the next one. A
    /// failed scan is not fatal: the listing goes ahead all the same.
    pub fn step(&mut self, ev: Event) -> (a: Action)
        ensures
            final(self).networks@ == old(self).networks@,
            match (old(self).phase, ev) {
                (Phase::Resolving, Event::Resolved) => final(self).phase == Phase::Scanning
                    && a is Scan,
                (Phase::Scanning, Event::Scanned { ok: _ }) => final(self).phase == Phase::Listing
                    && a is ListOrdered,
                (Phase::Listing, Event::Listed(order)) => final(self).phase == Phase::Done && (
                a matches Action::Finish(lines) && lines@ == joined(order@, old(self).networks@)),
                _ => final(self).phase == Phase::Done && a is Abort,
            },
    {
        match (self.phase, ev) {
            (Phase::Resolving, Event::Resolved) => {
                self.phase = Phase::Scanning;
                Action::Scan
            },
            (Phase::Scanning, Event::Scanned { ok: _ }) => {
                self.phase = Phase::Listing;
                Action::ListOrdered
            },
            (Phase::Listing, Event::Listed(order)) => {
                self.phase = Phase::Done;
                Action::Finish(join(&order, &self.networks))
            },
            _ => {
                self.phase = Phase::Done;
                Action::Abort
            },
        }
    }
}

} // verus!
