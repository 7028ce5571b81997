//! The aggregator: sole owner of the canonical node and service tables,
//! single consumer of the event bus. Each event is processed to completion
//! and yields the action the surrounding runtime must take — notably which
//! findings to hand to the notifier. Severity is always derived afresh from
//! the stored snapshots and the caller's current time, never persisted.

use vstd::prelude::*;

use crate::doctor::{node_message, node_status, Doctor};
use crate::ent::{Event, HealthInfo, HealthStatus, Node, Service, Target};
use crate::table::{
    distinct_keys, lemma_remove_key_idempotent, seq_has_key, seq_remove_key, seq_upsert, Table,
};

verus! {

/// The side effect one processed event asks of the surrounding runtime.
#[derive(Debug, PartialEq)]
pub enum LogAction {
    /// Nothing to do beyond the table update.
    Nothing,
    /// Hand this batch of findings to the notifier.
    Notify(Vec<HealthInfo>),
    /// A heartbeat arrived without a snapshot: log a local warning.
    MalformedEvent,
    /// An offline notice named an entry that is not in the table: a
    /// producer/aggregator inconsistency, to be logged loudly but never
    /// fatal to the aggregator.
    MissingEntry,
}

/// `f` is the sweep's finding for the stored node `entry`: same record with
/// its diagnostic replaced by the classifier's text at time `now`, paired
/// with the severity at time `now`.
pub open spec fn sweep_finding(entry: (String, Node), now: u64, f: HealthInfo) -> bool {
    &&& f.status == node_status(entry.1, now)
    &&& f.target matches Target::Node(id, Some(n)) && {
        &&& id == entry.0
        &&& n.status_msg matches Some(m) && m@ == node_message(entry.1, now)
        &&& n == Node { status_msg: n.status_msg, ..entry.1 }
    }
}

/// `batch` is a full sweep of `entries` at time `now`: exactly one finding
/// per stored node, in table order.
pub open spec fn is_sweep_batch(
    entries: Seq<(String, Node)>,
    now: u64,
    batch: Seq<HealthInfo>,
) -> bool {
    &&& batch.len() == entries.len()
    &&& forall|i: int|
        0 <= i < entries.len() ==> sweep_finding(entries[i], now, #[trigger] batch[i])
}

/// The aggregator's state transition relation: how one event takes the
/// tables from (`nodes0`, `services0`) to (`nodes1`, `services1`) and which
/// `action` it demands.
pub open spec fn log_transition(
    nodes0: Seq<(String, Node)>,
    services0: Seq<(String, Service)>,
    event: Event,
    now: u64,
    nodes1: Seq<(String, Node)>,
    services1: Seq<(String, Service)>,
    action: LogAction,
) -> bool {
    match event {
        Event::Heartbeat(h) => match h.target {
            Target::Node(id, Some(n)) => {
                &&& nodes1 == seq_upsert(nodes0, id, n)
                &&& services1 == services0
                &&& if h.status == HealthStatus::Red {
                    action matches LogAction::Notify(batch) && batch@ == seq![h]
                } else {
                    action == LogAction::Nothing
                }
            },
            Target::Service(name, Some(s)) => {
                &&& nodes1 == nodes0
                &&& services1 == seq_upsert(services0, name, s)
                &&& if h.status == HealthStatus::Red {
                    action matches LogAction::Notify(batch) && batch@ == seq![h]
                } else {
                    action == LogAction::Nothing
                }
            },
            Target::Node(_, None) | Target::Service(_, None) => {
                &&& nodes1 == nodes0
                &&& services1 == services0
                &&& action == LogAction::MalformedEvent
            },
        },
        Event::Offline(t) => match t {
            Target::Node(id, _) => {
                &&& nodes1 == seq_remove_key(nodes0, id@)
                &&& services1 == services0
                &&& action == if seq_has_key(nodes0, id@) {
                    LogAction::Nothing
                } else {
                    LogAction::MissingEntry
                }
            },
            Target::Service(name, _) => {
                &&& nodes1 == nodes0
                &&& services1 == seq_remove_key(services0, name@)
                &&& action == if seq_has_key(services0, name@) {
                    LogAction::Nothing
                } else {
                    LogAction::MissingEntry
                }
            },
        },
        Event::CheckAll => {
            &&& nodes1 == nodes0
            &&& services1 == services0
            &&& action matches LogAction::Notify(batch) && is_sweep_batch(nodes0, now, batch@)
        },
    }
}

/// Aggregator over the canonical node and service tables.
pub struct Logger {
    nodes: Table<Node>,
    services: Table<Service>,
    dc: Doctor,
}

impl Logger {
    /// The stored node records, oldest id first.
    pub closed spec fn nodes_entries(&self) -> Seq<(String, Node)> {
        self.nodes.entries()
    }

    /// The stored service records, oldest name first.
    pub closed spec fn services_entries(&self) -> Seq<(String, Service)> {
        self.services.entries()
    }

    /// Both tables keep their keys distinct.
    pub closed spec fn wf(&self) -> bool {
        self.nodes.wf() && self.services.wf()
    }

    pub fn new(dc: Doctor) -> (l: Logger)
        ensures
            l.wf(),
            l.nodes_entries() == Seq::<(String, Node)>::empty(),
            l.services_entries() == Seq::<(String, Service)>::empty(),
    {
        Logger { nodes: Table::new(), services: Table::new(), dc }
    }

    /// Upsert a node record; a heartbeat without a snapshot changes nothing.
    pub fn update_node(&mut self, id: String, node: Option<Node>)
        requires
            old(self).wf(),
        ensures
            final(self).wf(),
            final(self).nodes_entries() == match node {
                Some(n) => seq_upsert(old(self).nodes_entries(), id, n),
                None => old(self).nodes_entries(),
            },
            final(self).services_entries() == old(self).services_entries(),
    {
        match node {
            Some(n) => self.nodes.insert(id, n),
            None => (),
        }
    }

    /// Upsert a service record; a heartbeat without a snapshot changes
    /// nothing.
    pub fn update_service(&mut self, name: String, service: Option<Service>)
        requires
            old(self).wf(),
        ensures
            final(self).wf(),
            final(self).services_entries() == match service {
                Some(s) => seq_upsert(old(self).services_entries(), name, s),
                None => old(self).services_entries(),
            },
            final(self).nodes_entries() == old(self).nodes_entries(),
    {
        match service {
            Some(s) => self.services.insert(name, s),
            None => (),
        }
    }

    /// Remove the entry an offline notice names, reporting whether it was
    /// present. An absent entry is never fatal: the table is untouched.
    pub fn offline(&mut self, target: Target) -> (present: bool)
        requires
            old(self).wf(),
        ensures
            final(self).wf(),
            match target {
                Target::Node(id, _) => {
                    &&& final(self).nodes_entries() == seq_remove_key(
                        old(self).nodes_entries(),
                        id@,
                    )
                    &&& final(self).services_entries() == old(self).services_entries()
                    &&& present == seq_has_key(old(self).nodes_entries(), id@)
                },
                Target::Service(name, _) => {
                    &&& final(self).nodes_entries() == old(self).nodes_entries()
                    &&& final(self).services_entries() == seq_remove_key(
                        old(self).services_entries(),
                        name@,
                    )
                    &&& present == seq_has_key(old(self).services_entries(), name@)
                },
            },
    {
        match target {
            Target::Node(id, _) => self.nodes.remove(&id).is_some(),
            Target::Service(name, _) => self.services.remove(&name).is_some(),
        }
    }

    /// Re-evaluate every stored node against the current time and collect
    /// one finding per node, in table order. Read-only; the caller must
    /// sample `now` freshly per sweep, since staleness is time-relative.
    pub fn tranverse_check(&self, now: u64) -> (batch: Vec<HealthInfo>)
        ensures
            is_sweep_batch(self.nodes_entries(), now, batch@),
    {
        let mut result: Vec<HealthInfo> = Vec::new();
        let mut i: usize = 0;
        let n = self.nodes.len();
        while i < n
            invariant
                n == self.nodes_entries().len(),
                i <= n,
                result@.len() == i,
                forall|j: int|
                    0 <= j < i ==> sweep_finding(self.nodes_entries()[j], now, #[trigger] result@[j]),
            decreases n - i,
        {
            let pair = self.nodes.pair_at(i);
            let (status, msg) = self.dc.check_node(&pair.1, now);
            let mut snap = pair.1.duplicate();
            snap.status_msg = Some(msg);
            let finding = HealthInfo { target: Target::Node(pair.0.clone(), Some(snap)), status };
            proof {
                assert(sweep_finding(self.nodes_entries()[i as int], now, finding));
            }
            result.push(finding);
            i = i + 1;
        }
        result
    }

    /// Process one event to completion: apply its table effect and return
    /// the action it demands. `now` is the caller's freshly sampled time,
    /// used only by the `CheckAll` sweep.
    pub fn log(&mut self, event: Event, now: u64) -> (action: LogAction)
        requires
            old(self).wf(),
        ensures
            final(self).wf(),
            log_transition(
                old(self).nodes_entries(),
                old(self).services_entries(),
                event,
                now,
                final(self).nodes_entries(),
                final(self).services_entries(),
                action,
            ),
    {
        match event {
            Event::Heartbeat(h) => {
                let HealthInfo { target, status } = h;
                match target {
                    Target::Node(id, Some(node)) => {
                        let action = if status == HealthStatus::Red {
                            let copy = HealthInfo {
                                target: Target::Node(id.clone(), Some(node.duplicate())),
                                status,
                            };
                            proof {
                                assert(copy == h);
                            }
                            let mut batch: Vec<HealthInfo> = Vec::new();
                            batch.push(copy);
                            proof {
                                assert(batch@ =~= seq![h]);
                            }
                            LogAction::Notify(batch)
                        } else {
                            LogAction::Nothing
                        };
                        self.nodes.insert(id, node);
                        action
                    },
                    Target::Service(name, Some(service)) => {
                        let action = if status == HealthStatus::Red {
                            let copy = HealthInfo {
                                target: Target::Service(name.clone(), Some(service.duplicate())),
                                status,
                            };
                            proof {
                                assert(copy == h);
                            }
                            let mut batch: Vec<HealthInfo> = Vec::new();
                            batch.push(copy);
                            proof {
                                assert(batch@ =~= seq![h]);
                            }
                            LogAction::Notify(batch)
                        } else {
                            LogAction::Nothing
                        };
                        self.services.insert(name, service);
                        action
                    },
                    Target::Node(_, None) | Target::Service(_, None) => LogAction::MalformedEvent,
                }
            },
            Event::Offline(target) => {
                if self.offline(target) {
                    LogAction::Nothing
                } else {
                    LogAction::MissingEntry
                }
            },
            Event::CheckAll => LogAction::Notify(self.tranverse_check(now)),
        }
    }
}

/// The node table after a run of heartbeats: each record upserted in turn
/// under its id, as `log` does one event at a time.
pub open spec fn upsert_all(
    s: Seq<(String, Node)>,
    hs: Seq<(String, Node)>,
) -> Seq<(String, Node)>
    decreases hs.len(),
{
    if hs.len() == 0 {
        s
    } else {
        upsert_all(seq_upsert(s, hs.first().0, hs.first().1), hs.drop_first())
    }
}

/// Upserting records whose keys are distinct and not yet present simply
/// appends them, in order.
proof fn lemma_upsert_all_fresh(s: Seq<(String, Node)>, hs: Seq<(String, Node)>)
    requires
        distinct_keys(hs),
        forall|i: int| 0 <= i < hs.len() ==> !seq_has_key(s, #[trigger] hs[i].0@),
    ensures
        upsert_all(s, hs) == s + hs,
    decreases hs.len(),
{
    if hs.len() == 0 {
        assert(s + hs =~= s);
    } else {
        let h = hs.first();
        assert(!seq_has_key(s, hs[0].0@));
        let s1 = seq_upsert(s, h.0, h.1);
        assert((h.0, h.1) == h);
        assert(s1 == s.push(h));
        assert(distinct_keys(hs.drop_first())) by {
            assert forall|p: int, q: int|
                0 <= p < q < hs.drop_first().len() implies hs.drop_first()[p].0@
                != hs.drop_first()[q].0@ by {
                assert(hs[p + 1].0@ != hs[q + 1].0@);
            }
        }
        assert forall|i: int|
            0 <= i < hs.drop_first().len() implies !seq_has_key(
            s1,
            #[trigger] hs.drop_first()[i].0@,
        ) by {
            let k = hs.drop_first()[i].0@;
            assert(hs.drop_first()[i] == hs[i + 1]);
            if seq_has_key(s1, k) {
                let j = choose|j: int| 0 <= j < s1.len() && s1[j].0@ == k;
                if j < s.len() {
                    assert(s[j].0@ == k);
                    assert(seq_has_key(s, hs[i + 1].0@));
                } else {
                    assert(s1[j] == h);
                    assert(hs[0].0@ == hs[i + 1].0@);
                }
            }
        }
        lemma_upsert_all_fresh(s1, hs.drop_first());
        assert(s + hs =~= s.push(h) + hs.drop_first());
    }
}

/// Round trip: heartbeats for distinct, previously unseen node ids fill
/// the table with exactly those records, in enqueue order, and the sweep
/// that follows reports exactly one finding per id — each evaluated at the
/// sweep's own time, not at ingestion time.
pub proof fn lemma_round_trip(hs: Seq<(String, Node)>, now: u64, batch: Seq<HealthInfo>)
    requires
        distinct_keys(hs),
        is_sweep_batch(upsert_all(Seq::<(String, Node)>::empty(), hs), now, batch),
    ensures
        batch.len() == hs.len(),
        forall|i: int| 0 <= i < hs.len() ==> sweep_finding(hs[i], now, #[trigger] batch[i]),
{
    lemma_upsert_all_fresh(Seq::<(String, Node)>::empty(), hs);
    assert(upsert_all(Seq::<(String, Node)>::empty(), hs) =~= hs);
}

/// Processing the same offline notice twice leaves the table exactly as
/// after the first time: the repeat removes nothing further and cannot
/// corrupt the entries, it only reports the missing entry.
pub proof fn lemma_offline_idempotent(nodes: Seq<(String, Node)>, id: Seq<char>)
    requires
        distinct_keys(nodes),
    ensures
        seq_remove_key(seq_remove_key(nodes, id), id) == seq_remove_key(nodes, id),
        !seq_has_key(seq_remove_key(nodes, id), id),
{
    lemma_remove_key_idempotent(nodes, id);
}

} // verus!
