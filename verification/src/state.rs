//! The process-wide shared state: the tally, the user gauges, the
//! broadcast hub, the admission map and the configuration. Constructed
//! once at process start and handed to every session.

use vstd::prelude::*;

use crate::admission::AdmissionController;
use crate::config::Config;
use crate::hub::BroadcastHub;
use crate::tally::Counters;

verus! {

/// Everything the sessions share.
pub struct AppState {
    pub counters: Counters,
    pub concurrent_users: u64,
    pub total_users: u64,
    pub hub: BroadcastHub,
    pub connection_map: AdmissionController,
    pub config: Config,
}

impl AppState {
    /// The shared structures are well formed.
    pub open spec fn wf(&self) -> bool {
        self.hub.wf() && self.connection_map.wf()
    }

    /// Room for one more event in every counter.
    pub open spec fn has_headroom(&self) -> bool {
        self.counters.has_headroom() && self.hub.published < u64::MAX
    }

    /// The state at process start: every counter at zero, nothing
    /// published, no identity admitted.
    pub fn new(config: Config, hub_capacity: u64) -> (r: AppState)
        requires
            hub_capacity > 0,
        ensures
            r.wf(),
            r.counters.red == 0 && r.counters.green == 0 && r.counters.blue == 0
                && r.counters.purple == 0 && r.counters.total == 0,
            r.concurrent_users == 0,
            r.total_users == 0,
            r.hub.published == 0,
            r.hub.capacity == hub_capacity,
            r.hub.history@ == Seq::<Seq<char>>::empty(),
            forall|id: u64| r.connection_map.count(id) == 0 && !r.connection_map.has_entry(id),
            r.config == config,
    {
        AppState {
            counters: Counters::default(),
            concurrent_users: 0,
            total_users: 0,
            hub: BroadcastHub::new(hub_capacity),
            connection_map: AdmissionController::new(),
            config,
        }
    }
}

} // verus!
