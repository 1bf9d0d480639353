//! A media reference registry.
//!
//! The library classifies an inbound media event into a storable descriptor,
//! decides whether it belongs to a new or an in-flight album, allocates a
//! short opaque identifier, records the descriptor under that identifier, and
//! resolves an identifier back to the stored media (a single item or an
//! ordered group). Every function of the registry logic carries a verified
//! contract; the transport and the durable database connection live outside
//! the library and exchange plain values with it.

pub mod config;
pub mod ident;
pub mod ingest;
pub mod laws;
pub mod media;
pub mod resolve;
pub mod store;
pub mod text;
pub mod tracker;

use vstd::prelude::*;
use crate::store::{RecordV, Registry};
use crate::tracker::GroupTracker;

verus! {

/// The shared session: the album tracker and the registry store, to be held
/// behind one mutual-exclusion boundary by the caller. Every registry
/// operation runs against this one value, which serializes all traffic.
pub struct State {
    pub group_uuid: GroupTracker,
    pub registry: Registry,
}

/// Mathematical model of a [`State`]: the tracked correlations and the stored
/// rows.
pub ghost struct StateV {
    pub group_uuid: Map<Seq<char>, Seq<char>>,
    pub rows: Seq<RecordV>,
}

impl View for State {
    type V = StateV;

    open spec fn view(&self) -> StateV {
        StateV { group_uuid: self.group_uuid@, rows: self.registry@ }
    }
}

impl State {
    /// A fresh session: nothing tracked, nothing stored.
    pub fn new() -> (r: Self)
        ensures
            r@.group_uuid == Map::<Seq<char>, Seq<char>>::empty(),
            r@.rows == Seq::<RecordV>::empty(),
    {
        State { group_uuid: GroupTracker::new(), registry: Registry::new() }
    }
}

} // verus!
