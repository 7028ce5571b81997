//! The compute behind the ingestion surface's handlers. The HTTP layer,
//! its shared read cache and the bus sends live outside the library; they
//! hand in plain values and get back the records and events to store,
//! return and enqueue.

use vstd::prelude::*;

use crate::doctor::{node_message, node_status, Doctor};
use crate::ent::{Event, HealthInfo, Node, Target};

verus! {

/// Query parameters of the node index read API.
#[derive(Debug, Clone, PartialEq)]
pub struct Pagination {
    pub offset: Option<usize>,
    pub limit: Option<usize>,
}

impl core::default::Default for Pagination {
    /// No offset, no limit: the whole list.
    fn default() -> (r: Pagination)
        ensures
            r.offset is None,
            r.limit is None,
    {
        Pagination { offset: None, limit: None }
    }
}

/// First index of the requested page: the offset, clipped to the list.
pub open spec fn page_start(len: int, offset: Option<usize>) -> int {
    let off = match offset {
        Some(o) => o as int,
        None => 0,
    };
    if off <= len {
        off
    } else {
        len
    }
}

/// One past the last index of the requested page: `limit` entries from the
/// start when that many remain, the end of the list otherwise.
pub open spec fn page_end(len: int, offset: Option<usize>, limit: Option<usize>) -> int {
    let start = page_start(len, offset);
    match limit {
        Some(l) => if start + l <= len {
            start + l
        } else {
            len
        },
        None => len,
    }
}

/// The page of `nodes` selected by `p`: skip `offset` records, then take
/// at most `limit`.
pub fn paginate(nodes: &Vec<Node>, p: &Pagination) -> (r: Vec<Node>)
    ensures
        r@ == nodes@.subrange(
            page_start(nodes@.len() as int, p.offset),
            page_end(nodes@.len() as int, p.offset, p.limit),
        ),
{
    let len = nodes.len();
    let start = match p.offset {
        Some(o) => if o <= len {
            o
        } else {
            len
        },
        None => 0,
    };
    let end = match p.limit {
        Some(l) => if l <= len - start {
            start + l
        } else {
            len
        },
        None => len,
    };
    let mut r: Vec<Node> = Vec::new();
    let mut i: usize = start;
    while i < end
        invariant
            start <= i <= end <= nodes@.len(),
            r@ =~= nodes@.subrange(start as int, i as int),
        decreases end - i,
    {
        r.push(nodes[i].duplicate());
        i = i + 1;
    }
    proof {
        assert(r@ =~= nodes@.subrange(
            page_start(nodes@.len() as int, p.offset),
            page_end(nodes@.len() as int, p.offset, p.limit),
        ));
    }
    r
}

/// A node snapshot as the ingestion surface receives it: everything the
/// node reports, before the server stamps and classifies it. `load_15` is
/// a scaled integer, as on `Node`.
#[derive(Debug, Clone, PartialEq)]
pub struct UpsertNode {
    pub system_hostname: String,
    pub time_day: String,
    pub system_ip: String,
    pub load_1: u32,
    pub load_5: u32,
    pub load_15: u32,
    pub mem_status_total: String,
    pub mem_status_use: String,
    pub mem_status_per: u32,
    pub mem_status: String,
    pub disk_f: String,
    pub disk_total: String,
    pub disk_free: String,
    pub disk_per: u32,
    pub disk_f_60: String,
    pub disk_per_60: String,
    pub disk_status: String,
}

/// The record a reported snapshot becomes: the hostname is the id, the
/// server stamps `last_updated` with its own current time, and no
/// diagnostic is attached yet.
pub open spec fn node_of_upsert(input: UpsertNode, now: u64) -> Node {
    Node {
        id: input.system_hostname,
        time_day: input.time_day,
        system_ip: input.system_ip,
        load_1: input.load_1,
        load_5: input.load_5,
        load_15: input.load_15,
        mem_status_total: input.mem_status_total,
        mem_status_use: input.mem_status_use,
        mem_status_per: input.mem_status_per,
        mem_status: input.mem_status,
        disk_f: input.disk_f,
        disk_total: input.disk_total,
        disk_free: input.disk_free,
        disk_per: input.disk_per,
        disk_f_60: input.disk_f_60,
        disk_per_60: input.disk_per_60,
        disk_status: input.disk_status,
        last_updated: now,
        status_msg: None,
    }
}

/// Turn a reported snapshot into the record to store, stamped with the
/// server's current time.
pub fn build_node(input: UpsertNode, now: u64) -> (n: Node)
    ensures
        n == node_of_upsert(input, now),
{
    Node {
        id: input.system_hostname,
        time_day: input.time_day,
        system_ip: input.system_ip,
        load_1: input.load_1,
        load_5: input.load_5,
        load_15: input.load_15,
        mem_status_total: input.mem_status_total,
        mem_status_use: input.mem_status_use,
        mem_status_per: input.mem_status_per,
        mem_status: input.mem_status,
        disk_f: input.disk_f,
        disk_total: input.disk_total,
        disk_free: input.disk_free,
        disk_per: input.disk_per,
        disk_f_60: input.disk_f_60,
        disk_per_60: input.disk_per_60,
        disk_status: input.disk_status,
        last_updated: now,
        status_msg: None,
    }
}

/// The compute of the node-upsert handler: stamp the snapshot, classify
/// it, attach the diagnostic, and build the heartbeat event that carries
/// the classified record. The returned record is also the handler's
/// response body.
pub fn ingest_node(dc: &Doctor, input: UpsertNode, now: u64) -> (r: (Node, Event))
    ensures
        (r.0.status_msg matches Some(m) && m@ == node_message(node_of_upsert(input, now), now)),
        r.0 == (Node { status_msg: r.0.status_msg, ..node_of_upsert(input, now) }),
        r.1 == Event::Heartbeat(
            HealthInfo {
                target: Target::Node(r.0.id, Some(r.0)),
                status: node_status(node_of_upsert(input, now), now),
            },
        ),
{
    let mut node = build_node(input, now);
    let (status, msg) = dc.check_node(&node, now);
    node.status_msg = Some(msg);
    let event = Event::Heartbeat(
        HealthInfo { target: Target::Node(node.id.clone(), Some(node.duplicate())), status },
    );
    (node, event)
}

/// The event the deletion handler enqueues: an offline notice carrying
/// only the node's identity.
pub fn offline_event(id: &String) -> (e: Event)
    ensures
        e == Event::Offline(Target::Node(*id, None)),
{
    Event::Offline(Target::Node(id.clone(), None))
}

} // verus!
