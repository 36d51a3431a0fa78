//! The decisions of the scan endpoint, as a state machine: the server
//! performs each action (looking up a ban, counting the request, checking
//! the client's rate limit, consulting the cache, taking a scan slot,
//! running the scan) and reports what it found; the machine decides what
//! happens next.

use vstd::prelude::*;

use crate::server::{
    ban_active, cache_fresh, is_repeat_offender, over_global_ceiling, target_verdict,
    validate_target, ApiError, GLOBAL_SCAN_CEILING, REPEAT_OFFENDER_BAN_SECS,
    REPEAT_OFFENDER_THRESHOLD, SCAN_CACHE_TTL_SECS,
};

verus! {

/// Where a scan request stands.
#[derive(Clone, Debug)]
pub enum GateState {
    /// Nothing done yet.
    Start,
    /// Waiting to learn whether the client is banned.
    AwaitBan,
    /// Waiting for the request to be counted against the global ceiling.
    AwaitCount,
    /// Waiting for the client's rate-limit verdict.
    AwaitRate,
    /// The target is valid; waiting for the cache lookup.
    AwaitCache { host: String, port: u16 },
    /// No fresh cached report; waiting for a scan slot.
    AwaitSlot { host: String, port: u16 },
    /// The scan is running.
    AwaitScan { host: String, port: u16 },
    /// The request has been answered.
    Finished,
}

/// What the server found out while performing the last action.
#[derive(Clone, Debug)]
pub enum GateEvent {
    /// The request arrived.
    Begin,
    /// Seconds since the client was banned, if it is on the ban list.
    BanAge(Option<u64>),
    /// Requests already counted this minute, before this one.
    InFlightBefore(usize),
    /// The client's rate limiter let the request through or not, and how
    /// often the client has been throttled.
    RateChecked { allowed: bool, throttles: usize },
    /// Age in seconds of the cached report for the target, if there is one.
    CacheAge(Option<u64>),
    /// Whether a scan slot was free.
    SlotAcquired(bool),
    /// The scan ended, in time or not.
    ScanFinished { timed_out: bool },
}

/// What the server is to do next.
#[derive(Clone, Debug)]
pub enum GateAction {
    /// Look up whether the client is banned, and since when.
    LookUpBan,
    /// Count the request against the global ceiling.
    CountRequest,
    /// Record the request in the client's rate-limit window.
    CheckRateLimit,
    /// Look up a cached report for the target.
    LookUpCache { host: String, port: u16 },
    /// Take a scan slot without waiting.
    AcquireSlot,
    /// Scan the target within the time limit, then release the request's count.
    RunScan { host: String, port: u16 },
    /// Answer with the cached report.
    ServeCached,
    /// Record the full report, answer with its public view, and cache that.
    Publish,
    /// Answer with `error`; release the request's count and ban the client
    /// where the flags say so.
    Refuse { error: ApiError, release_count: bool, ban_client: bool },
    /// The event does not fit the current state; nothing changes.
    Ignore,
}

/// One scan request: the target and port override it asked for, and where
/// it stands.
#[derive(Clone, Debug)]
pub struct ScanGate {
    pub target: String,
    pub port: Option<u16>,
    pub state: GateState,
}

/// A refusal with the given error and flags.
pub open spec fn refused(a: GateAction, error: ApiError, release: bool, ban: bool) -> bool {
    a matches GateAction::Refuse { error: e, release_count, ban_client } && e == error
        && release_count == release && ban_client == ban
}

/// One step of the machine: from `g` on event `e`, the machine moves to
/// `n` and asks for action `a`.
pub open spec fn gate_step(g: ScanGate, e: GateEvent, n: ScanGate, a: GateAction) -> bool {
    &&& n.target == g.target
    &&& n.port == g.port
    &&& match (g.state, e) {
        (GateState::Start, GateEvent::Begin) => n.state is AwaitBan && a is LookUpBan,
        (GateState::AwaitBan, GateEvent::BanAge(age)) => if age matches Some(s) && s
            < REPEAT_OFFENDER_BAN_SECS {
            n.state is Finished && refused(a, ApiError::RateLimited, false, false)
        } else {
            n.state is AwaitCount && a is CountRequest
        },
        (GateState::AwaitCount, GateEvent::InFlightBefore(prev)) => if prev >= GLOBAL_SCAN_CEILING {
            n.state is Finished && refused(a, ApiError::ServerBusy, true, false)
        } else {
            n.state is AwaitRate && a is CheckRateLimit
        },
        (GateState::AwaitRate, GateEvent::RateChecked { allowed, throttles }) => if !allowed {
            n.state is Finished && refused(
                a,
                ApiError::RateLimited,
                true,
                throttles >= REPEAT_OFFENDER_THRESHOLD,
            )
        } else {
            match target_verdict(g.target@, g.port) {
                Err(m) => {
                    &&& n.state is Finished
                    &&& a matches GateAction::Refuse {
                        error: ApiError::InvalidTarget(x),
                        release_count: false,
                        ban_client: false,
                    } && x@ == m
                },
                Ok((h, p)) => {
                    &&& n.state matches GateState::AwaitCache { host, port } && host@ == h && port == p
                    &&& a matches GateAction::LookUpCache { host: ah, port: ap } && ah@ == h && ap == p
                },
            }
        },
        (GateState::AwaitCache { host, port }, GateEvent::CacheAge(age)) => if age matches Some(s)
            && s < SCAN_CACHE_TTL_SECS {
            n.state is Finished && a is ServeCached
        } else {
            n.state == (GateState::AwaitSlot { host, port }) && a is AcquireSlot
        },
        (GateState::AwaitSlot { host, port }, GateEvent::SlotAcquired(free)) => if free {
            n.state == (GateState::AwaitScan { host, port }) && a == (GateAction::RunScan {
                host,
                port,
            })
        } else {
            n.state is Finished && refused(a, ApiError::ServerBusy, false, false)
        },
        (GateState::AwaitScan { .. }, GateEvent::ScanFinished { timed_out }) => if timed_out {
            n.state is Finished && refused(a, ApiError::ScanTimeout, false, false)
        } else {
            n.state is Finished && a is Publish
        },
        _ => n.state == g.state && a is Ignore,
    }
}

/// Every target the machine holds is the validated form of the request.
pub open spec fn gate_wf(g: ScanGate) -> bool {
    match g.state {
        GateState::AwaitCache { host, port } => target_verdict(g.target@, g.port) == Ok::<
            (Seq<char>, u16),
            Seq<char>,
        >((host@, port)),
        GateState::AwaitSlot { host, port } => target_verdict(g.target@, g.port) == Ok::<
            (Seq<char>, u16),
            Seq<char>,
        >((host@, port)),
        GateState::AwaitScan { host, port } => target_verdict(g.target@, g.port) == Ok::<
            (Seq<char>, u16),
            Seq<char>,
        >((host@, port)),
        _ => true,
    }
}

impl ScanGate {
    /// A request for `target`, with the port it asked for if any.
    pub fn new(target: String, port: Option<u16>) -> (res: Self)
        ensures
            res.target == target,
            res.port == port,
            res.state is Start,
            gate_wf(res),
    {
        ScanGate { target, port, state: GateState::Start }
    }

    /// Advances the request on what the server found out, and says what the
    /// server is to do next.
    pub fn step(&mut self, event: GateEvent) -> (res: GateAction)
        requires
            gate_wf(*old(self)),
        ensures
            gate_step(*old(self), event, *final(self), res),
            gate_wf(*final(self)),
    {
        match (&self.state, event) {
            (GateState::Start, GateEvent::Begin) => {
                self.state = GateState::AwaitBan;
                GateAction::LookUpBan
            },
            (GateState::AwaitBan, GateEvent::BanAge(age)) => {
                let banned = match age {
                    Some(s) => ban_active(s),
                    None => false,
                };
                if banned {
                    self.state = GateState::Finished;
                    GateAction::Refuse {
                        error: ApiError::RateLimited,
                        release_count: false,
                        ban_client: false,
                    }
                } else {
                    self.state = GateState::AwaitCount;
                    GateAction::CountRequest
                }
            },
            (GateState::AwaitCount, GateEvent::InFlightBefore(prev)) => {
                if over_global_ceiling(prev) {
                    self.state = GateState::Finished;
                    GateAction::Refuse {
                        error: ApiError::ServerBusy,
                        release_count: true,
                        ban_client: false,
                    }
                } else {
                    self.state = GateState::AwaitRate;
                    GateAction::CheckRateLimit
                }
            },
            (GateState::AwaitRate, GateEvent::RateChecked { allowed, throttles }) => {
                if !allowed {
                    self.state = GateState::Finished;
                    GateAction::Refuse {
                        error: ApiError::RateLimited,
                        release_count: true,
                        ban_client: is_repeat_offender(throttles),
                    }
                } else {
                    match validate_target(self.target.as_str(), self.port) {
                        Err(e) => {
                            self.state = GateState::Finished;
                            GateAction::Refuse { error: e, release_count: false, ban_client: false }
                        },
                        Ok((host, port)) => {
                            let h = host.clone();
                            self.state = GateState::AwaitCache { host, port };
                            GateAction::LookUpCache { host: h, port }
                        },
                    }
                }
            },
            (GateState::AwaitCache { host, port }, GateEvent::CacheAge(age)) => {
                let fresh = match age {
                    Some(s) => cache_fresh(s),
                    None => false,
                };
                if fresh {
                    self.state = GateState::Finished;
                    GateAction::ServeCached
                } else {
                    let host = host.clone();
                    let port = *port;
                    self.state = GateState::AwaitSlot { host, port };
                    GateAction::AcquireSlot
                }
            },
            (GateState::AwaitSlot { host, port }, GateEvent::SlotAcquired(free)) => {
                if free {
                    let h = host.clone();
                    let host = host.clone();
                    let port = *port;
                    self.state = GateState::AwaitScan { host, port };
                    GateAction::RunScan { host: h, port }
                } else {
                    self.state = GateState::Finished;
                    GateAction::Refuse {
                        error: ApiError::ServerBusy,
                        release_count: false,
                        ban_client: false,
                    }
                }
            },
            (GateState::AwaitScan { .. }, GateEvent::ScanFinished { timed_out }) => {
                self.state = GateState::Finished;
                if timed_out {
                    GateAction::Refuse {
                        error: ApiError::ScanTimeout,
                        release_count: false,
                        ban_client: false,
                    }
                } else {
                    GateAction::Publish
                }
            },
            _ => GateAction::Ignore,
        }
    }
}

/// The scan endpoint scans only what it validated: whenever the machine
/// asks for a scan, the host and port are the validated form of the
/// request, so (with no override of port 0) the host is a public name or
/// address outside every private, loopback, link-local and reserved range,
/// and the port is not 0.
pub proof fn law_only_public_targets_are_scanned(
    g: ScanGate,
    e: GateEvent,
    n: ScanGate,
    host: String,
    port: u16,
)
    requires
        gate_wf(g),
        gate_wf(n),
        gate_step(g, e, n, GateAction::RunScan { host, port }),
        g.port != Some(0u16),
    ensures
        target_verdict(g.target@, g.port) == Ok::<(Seq<char>, u16), Seq<char>>((host@, port)),
        crate::server::valid_hostname_or_ip(host@),
        port != 0,
        match crate::target::ipv4_of(host@) {
            Some((a, b, c, d)) => !crate::server::ipv4_disallowed(a, b, c, d),
            None => !crate::server::hostname_disallowed(host@),
        },
{
    crate::server::law_accepted_targets_are_public(g.target@, g.port);
}

} // verus!
