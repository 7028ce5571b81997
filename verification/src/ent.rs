//! Entities of the monitoring domain: node and service snapshots, the
//! tri-level health scale, and the events the aggregator consumes.

use vstd::prelude::*;

verus! {

/// Health report of one node, replaced wholesale on every ingestion.
///
/// `load_15` is carried as a scaled integer (hundredths of the load average)
/// so that the record holds plain values only; the ingestion surface converts.
#[derive(Debug, Clone, PartialEq)]
pub struct Node {
    pub id: String,
    pub time_day: String,
    pub system_ip: String,
    pub load_1: u32,
    pub load_5: u32,
    pub load_15: u32,
    pub mem_status_total: String,
    pub mem_status_use: String,
    pub mem_status_per: u32,
    pub mem_status: String,
    pub disk_f: String,
    pub disk_total: String,
    pub disk_free: String,
    pub disk_per: u32,
    pub disk_f_60: String,
    pub disk_per_60: String,
    pub disk_status: String,
    pub last_updated: u64,
    pub status_msg: Option<String>,
}

/// Descriptor of one monitored service; the live fields `latency` and
/// `last_updated` are replaced on every probe.
#[derive(Debug, Clone, PartialEq)]
pub struct Service {
    pub api: String,
    pub name: String,
    pub latency: u128,
    pub last_updated: u64,
}

impl Node {
    /// A copy provably equal to `self` (what `clone` returns is opaque to
    /// the verifier, so the copy is rebuilt field by field).
    pub fn duplicate(&self) -> (r: Node)
        ensures
            r == *self,
    {
        Node {
            id: self.id.clone(),
            time_day: self.time_day.clone(),
            system_ip: self.system_ip.clone(),
            load_1: self.load_1,
            load_5: self.load_5,
            load_15: self.load_15,
            mem_status_total: self.mem_status_total.clone(),
            mem_status_use: self.mem_status_use.clone(),
            mem_status_per: self.mem_status_per,
            mem_status: self.mem_status.clone(),
            disk_f: self.disk_f.clone(),
            disk_total: self.disk_total.clone(),
            disk_free: self.disk_free.clone(),
            disk_per: self.disk_per,
            disk_f_60: self.disk_f_60.clone(),
            disk_per_60: self.disk_per_60.clone(),
            disk_status: self.disk_status.clone(),
            last_updated: self.last_updated,
            status_msg: match &self.status_msg {
                Some(m) => Some(m.clone()),
                None => None,
            },
        }
    }
}

impl Service {
    /// A copy provably equal to `self`.
    pub fn duplicate(&self) -> (r: Service)
        ensures
            r == *self,
    {
        Service {
            api: self.api.clone(),
            name: self.name.clone(),
            latency: self.latency,
            last_updated: self.last_updated,
        }
    }
}

/// Ordered health scale: `Green` < `Yellow` < `Red`.
#[derive(Debug, Clone, Copy, PartialEq, Eq, Structural)]
pub enum HealthStatus {
    Red,
    Yellow,
    Green,
}

impl HealthStatus {
    /// Numeric severity; higher is worse.
    pub open spec fn spec_level(self) -> int {
        match self {
            HealthStatus::Green => 0,
            HealthStatus::Yellow => 1,
            HealthStatus::Red => 2,
        }
    }

    pub fn level(&self) -> (n: u32)
        ensures
            n == self.spec_level(),
    {
        match self {
            HealthStatus::Green => 0,
            HealthStatus::Yellow => 1,
            HealthStatus::Red => 2,
        }
    }

    /// The status a numeric severity maps back to; severities above the
    /// scale clamp to `Red`.
    pub open spec fn spec_from_level(level: int) -> HealthStatus {
        if level <= 0 {
            HealthStatus::Green
        } else if level == 1 {
            HealthStatus::Yellow
        } else {
            HealthStatus::Red
        }
    }

    pub fn from_level(level: u32) -> (s: HealthStatus)
        ensures
            s == HealthStatus::spec_from_level(level as int),
    {
        if level == 0 {
            HealthStatus::Green
        } else if level == 1 {
            HealthStatus::Yellow
        } else {
            HealthStatus::Red
        }
    }
}

/// A node or service reference, optionally carrying its latest snapshot.
/// The bare form identifies the subject of a deletion or offline notice.
#[derive(Debug, Clone, PartialEq)]
pub enum Target {
    Node(String, Option<Node>),
    Service(String, Option<Service>),
}

/// A finding: a target paired with the severity the classifier assigned.
#[derive(Debug, Clone, PartialEq)]
pub struct HealthInfo {
    pub target: Target,
    pub status: HealthStatus,
}

/// What travels over the event bus to the aggregator.
#[derive(Debug, Clone, PartialEq)]
pub enum Event {
    Heartbeat(HealthInfo),
    Offline(Target),
    CheckAll,
}

} // verus!
