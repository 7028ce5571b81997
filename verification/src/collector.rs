//! The service poller: owns the immutable list of monitored services and
//! turns each round of probe outcomes into the heartbeats it emits onto
//! the bus, plus the rotation that triggers a full sweep every tenth
//! iteration. The timer, the network probes and the sends are suspension
//! points and run outside the library; the decisions are here.

use vstd::prelude::*;

use crate::config;
use crate::doctor::{probe_message, probe_status, Doctor, ProbeOutcome};
use crate::ent::{Event, HealthInfo, Service, Target};

verus! {

/// Seconds the poller sleeps between patrol iterations.
pub const PATROL_INTERVAL_SECS: u64 = 300;

/// Every this many patrol iterations, one `CheckAll` sweep is emitted.
pub const SWEEP_EVERY: u32 = 10;

/// The heartbeat a patrol emits for service `srv` whose probe came back
/// with `outcome` at time `now`: the snapshot is refreshed (`last_updated`
/// stamped with `now`, latency carried over) and paired with the outcome's
/// classification.
pub open spec fn service_heartbeat(srv: Service, outcome: ProbeOutcome, now: u64) -> Event {
    Event::Heartbeat(
        HealthInfo {
            target: Target::Service(
                srv.name,
                Some(
                    Service {
                        name: srv.name,
                        api: srv.api,
                        latency: srv.latency,
                        last_updated: now,
                    },
                ),
            ),
            status: probe_status(outcome),
        },
    )
}

/// Poller over a fixed list of service descriptors assembled at startup.
pub struct ServiceChecker {
    db: Vec<Service>,
    dc: Doctor,
}

impl ServiceChecker {
    /// The monitored services, in configuration order.
    pub closed spec fn services(&self) -> Seq<Service> {
        self.db@
    }

    /// Assemble the descriptor list from the configured services: one
    /// entry per configured service, latency and timestamp starting at 0.
    pub fn new(dc: Doctor, services: Vec<config::Service>) -> (c: ServiceChecker)
        ensures
            c.services().len() == services@.len(),
            forall|i: int|
                0 <= i < services@.len() ==> {
                    &&& (#[trigger] c.services()[i]).name == services@[i].name
                    &&& c.services()[i].api == services@[i].api
                    &&& c.services()[i].latency == 0
                    &&& c.services()[i].last_updated == 0
                },
    {
        let mut db: Vec<Service> = Vec::new();
        let mut i: usize = 0;
        let n = services.len();
        while i < n
            invariant
                n == services@.len(),
                i <= n,
                db@.len() == i,
                forall|j: int|
                    0 <= j < i ==> {
                        &&& (#[trigger] db@[j]).name == services@[j].name
                        &&& db@[j].api == services@[j].api
                        &&& db@[j].latency == 0
                        &&& db@[j].last_updated == 0
                    },
            decreases n - i,
        {
            let src = &services[i];
            db.push(
                Service {
                    name: src.name.clone(),
                    api: src.api.clone(),
                    latency: 0,
                    last_updated: 0,
                },
            );
            i = i + 1;
        }
        ServiceChecker { db, dc }
    }

    pub fn service_count(&self) -> (n: usize)
        ensures
            n == self.services().len(),
    {
        self.db.len()
    }

    /// The endpoint the caller must probe for service `i`.
    pub fn service_api(&self, i: usize) -> (r: &String)
        requires
            i < self.services().len(),
        ensures
            r == self.services()[i as int].api,
    {
        &self.db[i].api
    }

    /// The heartbeat to emit for service `i` after its probe, together
    /// with the classifier's diagnostic text for the caller's log.
    pub fn heartbeat_for(&self, i: usize, outcome: &ProbeOutcome, now: u64) -> (r: (Event, String))
        requires
            i < self.services().len(),
        ensures
            r.0 == service_heartbeat(self.services()[i as int], *outcome, now),
            r.1@ == probe_message(self.services()[i as int].api@, *outcome),
    {
        let srv = &self.db[i];
        let (status, msg) = self.dc.check_service(srv.api.as_str(), outcome);
        let snapshot = Service {
            name: srv.name.clone(),
            api: srv.api.clone(),
            latency: srv.latency,
            last_updated: now,
        };
        let event = Event::Heartbeat(
            HealthInfo { target: Target::Service(srv.name.clone(), Some(snapshot)), status },
        );
        (event, msg)
    }

    /// One patrol iteration's emissions: given the probe outcomes of this
    /// round (one per service, in order) and the current time, the
    /// heartbeats to enqueue, one per service, in order.
    pub fn patrol(&self, outcomes: &Vec<ProbeOutcome>, now: u64) -> (events: Vec<Event>)
        requires
            outcomes@.len() == self.services().len(),
        ensures
            events@.len() == self.services().len(),
            forall|i: int|
                0 <= i < self.services().len() ==> #[trigger] events@[i] == service_heartbeat(
                    self.services()[i],
                    outcomes@[i],
                    now,
                ),
    {
        let mut events: Vec<Event> = Vec::new();
        let mut i: usize = 0;
        let n = self.db.len();
        while i < n
            invariant
                n == self.services().len(),
                outcomes@.len() == self.services().len(),
                i <= n,
                events@.len() == i,
                forall|j: int|
                    0 <= j < i ==> #[trigger] events@[j] == service_heartbeat(
                        self.services()[j],
                        outcomes@[j],
                        now,
                    ),
            decreases n - i,
        {
            let (event, _msg) = self.heartbeat_for(i, &outcomes[i], now);
            events.push(event);
            i = i + 1;
        }
        events
    }
}

/// Advance the patrol rotation counter: reports whether this iteration is
/// the one in `SWEEP_EVERY` that additionally emits a `CheckAll`, and the
/// counter to carry into the next iteration.
pub fn sweep_tick(count: u32) -> (r: (u32, bool))
    requires
        count < SWEEP_EVERY,
    ensures
        r.1 == (count + 1 == SWEEP_EVERY),
        r.0 == if count + 1 == SWEEP_EVERY {
            0u32
        } else {
            (count + 1) as u32
        },
        r.0 < SWEEP_EVERY,
{
    let next = count + 1;
    if next == SWEEP_EVERY {
        (0, true)
    } else {
        (next, false)
    }
}

} // verus!
