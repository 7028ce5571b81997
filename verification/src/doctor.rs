//! The classifier: a stateless evaluator turning a node snapshot or a
//! service probe outcome into a severity level plus diagnostic text.

use vstd::prelude::*;
use vstd::string::StringExecFns;

use crate::ent::{HealthStatus, Node};

verus! {

/// The larger of two severity levels; rules combine by maximum, never
/// additively.
pub open spec fn level_max(a: int, b: int) -> int {
    if a >= b {
        a
    } else {
        b
    }
}

/// Severity contributed by a usage percentage: 2 at 90 or above, 1 at 70 or
/// above, otherwise 0. Shared by the disk and memory rules.
pub open spec fn percent_level(per: u32) -> int {
    if per >= 90 {
        2
    } else if per >= 70 {
        1
    } else {
        0
    }
}

/// Severity contributed by staleness: 2 once the snapshot is more than
/// 1200 seconds old, 1 once more than 600, otherwise 0.
pub open spec fn staleness_level(last_updated: u64, now: u64) -> int {
    if now > last_updated + 1200 {
        2
    } else if now > last_updated + 600 {
        1
    } else {
        0
    }
}

/// Overall severity of a node snapshot at time `now`: the maximum of the
/// disk, memory and staleness rules.
pub open spec fn node_level(n: Node, now: u64) -> int {
    level_max(
        level_max(percent_level(n.disk_per), percent_level(n.mem_status_per)),
        staleness_level(n.last_updated, now),
    )
}

/// The status `check_node` reports for a node snapshot at time `now`.
pub open spec fn node_status(n: Node, now: u64) -> HealthStatus {
    HealthStatus::spec_from_level(node_level(n, now))
}

/// Diagnostic line contributed by the disk rule; empty when the rule does
/// not trigger.
pub open spec fn disk_message(per: u32) -> Seq<char> {
    if per >= 90 {
        "Error: disk > 90% .\n"@
    } else if per >= 70 {
        "Warn: disk > 70% .\n"@
    } else {
        Seq::<char>::empty()
    }
}

/// Diagnostic line contributed by the memory rule; empty when the rule does
/// not trigger.
pub open spec fn mem_message(per: u32) -> Seq<char> {
    if per >= 90 {
        "Error: mem > 90% .\n"@
    } else if per >= 70 {
        "Warn: mem > 70% .\n"@
    } else {
        Seq::<char>::empty()
    }
}

/// Diagnostic line contributed by the staleness rule; empty when the rule
/// does not trigger.
pub open spec fn staleness_message(last_updated: u64, now: u64) -> Seq<char> {
    if now > last_updated + 1200 {
        "Error: node hasn't update for 20 min."@
    } else if now > last_updated + 600 {
        "Warn: node hasn't update for 10 min."@
    } else {
        Seq::<char>::empty()
    }
}

/// The accumulated diagnostic lines, in rule order: disk, memory, staleness.
pub open spec fn node_warnings(n: Node, now: u64) -> Seq<char> {
    disk_message(n.disk_per) + mem_message(n.mem_status_per) + staleness_message(
        n.last_updated,
        now,
    )
}

/// The message `check_node` reports: a fixed all-clear line at severity 0,
/// the accumulated warnings otherwise.
pub open spec fn node_message(n: Node, now: u64) -> Seq<char> {
    if node_level(n, now) == 0 {
        "everything looks fine"@
    } else {
        node_warnings(n, now)
    }
}

/// What a network probe of a service endpoint came back with. The probe
/// itself — an HTTP GET bounded by a timeout — is I/O and runs outside the
/// library; its outcome is handed in as plain values.
#[derive(Debug, Clone, PartialEq)]
pub enum ProbeOutcome {
    /// The endpoint answered, with this HTTP status code.
    Responded(u16),
    /// The endpoint could not be reached (connection failure or timeout),
    /// with a description of the error.
    Unreachable(String),
}

/// The status a probe outcome is classified as: a 200 answer is `Green`,
/// any other answer `Yellow`, no answer at all `Red`.
pub open spec fn probe_status(outcome: ProbeOutcome) -> HealthStatus {
    match outcome {
        ProbeOutcome::Responded(code) => if code == 200 {
            HealthStatus::Green
        } else {
            HealthStatus::Yellow
        },
        ProbeOutcome::Unreachable(_) => HealthStatus::Red,
    }
}

/// The text recorded with a probe classification.
pub open spec fn probe_message(api: Seq<char>, outcome: ProbeOutcome) -> Seq<char> {
    match outcome {
        ProbeOutcome::Responded(code) => if code == 200 {
            "success"@
        } else {
            "Warn: service resp statuscode not 200"@
        },
        ProbeOutcome::Unreachable(err) => "Error: service("@ + api + ") get fail "@ + err@,
    }
}

/// Stateless health evaluator.
#[derive(Debug, Clone, Copy)]
pub struct Doctor {}

impl Doctor {
    pub fn new() -> Doctor {
        Doctor {  }
    }

    /// Classify a node snapshot against the current time.
    ///
    /// A pure function of `node` and `now`: the returned status is exactly
    /// `node_status(node, now)` and the returned text is exactly
    /// `node_message(node, now)`.
    pub fn check_node(&self, node: &Node, now: u64) -> (r: (HealthStatus, String))
        ensures
            r.0 == node_status(*node, now),
            r.1@ == node_message(*node, now),
    {
        let mut level: u32 = 0;
        let mut msg = String::new();
        if node.disk_per >= 90 {
            level = 2;
            msg.append("Error: disk > 90% .\n");
        } else if node.disk_per >= 70 {
            level = 1;
            msg.append("Warn: disk > 70% .\n");
        }
        if node.mem_status_per >= 90 {
            if level < 2 {
                level = 2;
            }
            msg.append("Error: mem > 90% .\n");
        } else if node.mem_status_per >= 70 {
            if level < 1 {
                level = 1;
            }
            msg.append("Warn: mem > 70% .\n");
        }
        let stale: u64 = if now > node.last_updated {
            now - node.last_updated
        } else {
            0
        };
        if stale > 1200 {
            if level < 2 {
                level = 2;
            }
            msg.append("Error: node hasn't update for 20 min.");
        } else if stale > 600 {
            if level < 1 {
                level = 1;
            }
            msg.append("Warn: node hasn't update for 10 min.");
        }
        assert(level == node_level(*node, now));
        assert(msg@ =~= node_warnings(*node, now));
        let status = HealthStatus::from_level(level);
        if level == 0 {
            (status, "everything looks fine".to_owned())
        } else {
            (status, msg)
        }
    }
}

impl Doctor {
    /// Classify the outcome of probing the endpoint `api`.
    ///
    /// Probe failures are not errors of the pipeline: an unreachable or
    /// slow endpoint is a valid `Red` classification, a non-success answer
    /// a valid `Yellow` one.
    pub fn check_service(&self, api: &str, outcome: &ProbeOutcome) -> (r: (HealthStatus, String))
        ensures
            r.0 == probe_status(*outcome),
            r.1@ == probe_message(api@, *outcome),
    {
        match outcome {
            ProbeOutcome::Responded(code) => {
                if *code == 200 {
                    (HealthStatus::Green, "success".to_owned())
                } else {
                    (HealthStatus::Yellow, "Warn: service resp statuscode not 200".to_owned())
                }
            },
            ProbeOutcome::Unreachable(err) => {
                let mut msg = "Error: service(".to_owned();
                msg.append(api);
                msg.append(") get fail ");
                msg.append(err.as_str());
                proof {
                    assert(msg@ =~= probe_message(api@, *outcome));
                }
                (HealthStatus::Red, msg)
            },
        }
    }
}

/// A node whose disk and memory percentages are both below 70 and whose
/// snapshot is less than 600 seconds old is classified `Green`, with the
/// fixed all-clear message.
pub proof fn lemma_healthy_node_is_green(n: Node, now: u64)
    requires
        n.disk_per < 70,
        n.mem_status_per < 70,
        now - n.last_updated < 600,
    ensures
        node_status(n, now) == HealthStatus::Green,
        node_message(n, now) == "everything looks fine"@,
{
}

/// Severity is monotone in the inputs: raising the disk or memory
/// percentage, or the staleness, of a snapshot never lowers the level the
/// classifier returns.
pub proof fn lemma_node_level_monotone(a: Node, b: Node, now_a: u64, now_b: u64)
    requires
        a.disk_per <= b.disk_per,
        a.mem_status_per <= b.mem_status_per,
        now_a - a.last_updated <= now_b - b.last_updated,
    ensures
        node_level(a, now_a) <= node_level(b, now_b),
        node_status(a, now_a).spec_level() <= node_status(b, now_b).spec_level(),
{
}

/// The classifier is a pure function: any two results that meet
/// `check_node`'s contract for the same snapshot and the same `now` agree on
/// the status and on the text.
pub proof fn lemma_check_node_deterministic(
    n: Node,
    now: u64,
    r1: (HealthStatus, String),
    r2: (HealthStatus, String),
)
    requires
        r1.0 == node_status(n, now),
        r1.1@ == node_message(n, now),
        r2.0 == node_status(n, now),
        r2.1@ == node_message(n, now),
    ensures
        r1.0 == r2.0,
        r1.1@ == r2.1@,
{
}

} // verus!
