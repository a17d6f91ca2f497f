//! The two probes by which a supervisor watches a worker.

use vstd::prelude::*;

verus! {

/// Whether a worker counts as alive at `now`: its last successful task lies
/// no more than `interval` seconds back.
pub open spec fn spec_alive(now: u64, last_successful_task: u64, interval: u64) -> bool {
    now - last_successful_task <= interval
}

/// Tells whether a worker counts as alive. All three are in seconds.
pub fn is_alive(now: u64, last_successful_task: u64, interval: u64) -> (r: bool)
    ensures
        r == spec_alive(now, last_successful_task, interval),
{
    now <= last_successful_task || now - last_successful_task <= interval
}

/// A probe of the worker.
#[derive(Debug, Clone, Copy, PartialEq, Eq, Structural)]
pub enum Probe {
    Readiness,
    Liveness,
}

/// The answer to a probe.
#[derive(Debug, Clone, Copy, PartialEq, Eq, Structural)]
pub enum ProbeReply {
    Pass,
    Fail,
}

impl ProbeReply {
    /// The HTTP status of the answer: 200 for `Pass`, 500 for `Fail`.
    pub fn status(&self) -> (r: u16)
        ensures
            r == (if *self == ProbeReply::Pass {
                200u16
            } else {
                500u16
            }),
    {
        match self {
            ProbeReply::Pass => 200,
            ProbeReply::Fail => 500,
        }
    }

    /// The body of the answer.
    pub fn body(&self) -> (r: &'static str)
        ensures
            r@ == (if *self == ProbeReply::Pass {
                "OK"@
            } else {
                "FAIL"@
            }),
    {
        match self {
            ProbeReply::Pass => "OK",
            ProbeReply::Fail => "FAIL",
        }
    }
}

/// Finds the probe that a request path names, with or without its leading
/// slash.
pub fn probe_at(path: &str) -> (r: Option<Probe>)
    ensures
        r == (if path@ == "readiness"@ || path@ == "/readiness"@ {
            Some(Probe::Readiness)
        } else if path@ == "liveness"@ || path@ == "/liveness"@ {
            Some(Probe::Liveness)
        } else {
            None
        }),
{
    let path = path.to_owned();
    if path == "readiness".to_owned() || path == "/readiness".to_owned() {
        Some(Probe::Readiness)
    } else if path == "liveness".to_owned() || path == "/liveness".to_owned() {
        Some(Probe::Liveness)
    } else {
        None
    }
}

/// Answers a probe. Readiness always passes. Liveness passes while the
/// last successful task lies no more than `interval` seconds back.
pub fn answer_probe(probe: Probe, now: u64, last_successful_task: u64, interval: u64) -> (r:
    ProbeReply)
    ensures
        r == (if probe == Probe::Readiness || spec_alive(now, last_successful_task, interval) {
            ProbeReply::Pass
        } else {
            ProbeReply::Fail
        }),
{
    match probe {
        Probe::Readiness => ProbeReply::Pass,
        Probe::Liveness => if is_alive(now, last_successful_task, interval) {
            ProbeReply::Pass
        } else {
            ProbeReply::Fail
        },
    }
}

} // verus!
