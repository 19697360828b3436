//! Decisions of the companion-process supervisor: where its script is, which
//! port it gets, when it counts as ready, and how it is stopped.

use vstd::prelude::*;
use crate::token::opt_view;

verus! {

/// How long readiness is polled for, in milliseconds.
pub const HEALTH_DEADLINE_MS: u64 = 5000;

/// Pause between two readiness probes, in milliseconds.
pub const HEALTH_POLL_MS: u64 = 100;

/// How long a cooperative stop is waited for before the process is killed, in milliseconds.
pub const STOP_GRACE_MS: u64 = 3000;

/// Pause between two checks for exit while stopping, in milliseconds.
pub const STOP_POLL_MS: u64 = 50;

/// How many directories, from the store's own upward, are searched for the script.
pub const SEARCH_DEPTH: usize = 10;

/// Where the supervisor stands.
#[derive(Clone, Copy, Debug, PartialEq, Eq, Structural)]
pub enum CompanionPhase {
    NotStarted,
    Starting,
    Healthy,
    Unhealthy,
    Stopped,
}

/// A process is held in this phase.
pub open spec fn tracks_process(p: CompanionPhase) -> bool {
    p is Starting || p is Healthy || p is Unhealthy
}

/// The phase after a stop, and whether a process had to be terminated.
pub open spec fn stop_outcome(p: CompanionPhase) -> (CompanionPhase, bool) {
    (CompanionPhase::Stopped, tracks_process(p))
}

/// Supervision record of at most one companion process.
pub struct Companion {
    pub phase: CompanionPhase,
}

impl Companion {
    pub fn new() -> (r: Self)
        ensures
            r.phase == CompanionPhase::NotStarted,
    {
        Companion { phase: CompanionPhase::NotStarted }
    }

    /// Whether a process may be spawned now: only before any was and before a stop.
    pub fn may_start(&self) -> (r: bool)
        ensures
            r == (self.phase == CompanionPhase::NotStarted),
    {
        self.phase == CompanionPhase::NotStarted
    }

    /// A process was spawned and is now held.
    pub fn record_spawn(&mut self)
        requires
            old(self).phase == CompanionPhase::NotStarted,
        ensures
            final(self).phase == CompanionPhase::Starting,
    {
        self.phase = CompanionPhase::Starting;
    }

    /// The readiness poll ended; the process is kept either way.
    pub fn record_health(&mut self, healthy: bool)
        requires
            old(self).phase == CompanionPhase::Starting,
        ensures
            final(self).phase == (if healthy {
                CompanionPhase::Healthy
            } else {
                CompanionPhase::Unhealthy
            }),
    {
        self.phase = if healthy {
            CompanionPhase::Healthy
        } else {
            CompanionPhase::Unhealthy
        };
    }

    /// Stop: the phase becomes `Stopped`, and the result says whether a held
    /// process must be terminated.
    pub fn stop(&mut self) -> (terminate: bool)
        ensures
            (final(self).phase, terminate) == stop_outcome(old(self).phase),
    {
        let terminate = match self.phase {
            CompanionPhase::Starting | CompanionPhase::Healthy | CompanionPhase::Unhealthy => true,
            _ => false,
        };
        self.phase = CompanionPhase::Stopped;
        terminate
    }
}

/// Stopping twice is stopping once: the second stop terminates nothing and
/// leaves the phase as it was; a supervisor that never started one
/// terminates nothing.
pub proof fn lemma_stop_idempotent(p: CompanionPhase)
    ensures
        stop_outcome(stop_outcome(p).0) == (stop_outcome(p).0, false),
        p == CompanionPhase::NotStarted ==> !stop_outcome(p).1,
{
}

/// What a readiness probe leads to.
#[derive(Clone, Copy, Debug, PartialEq, Eq, Structural)]
pub enum HealthStep {
    Ready,
    Retry,
    GiveUp,
}

pub open spec fn health_outcome(elapsed_ms: u64, status: Option<u16>) -> HealthStep {
    if status == Some(200u16) {
        HealthStep::Ready
    } else if elapsed_ms >= HEALTH_DEADLINE_MS {
        HealthStep::GiveUp
    } else {
        HealthStep::Retry
    }
}

/// The step after a probe made `elapsed_ms` into the poll that answered
/// `status` (`None` where no answer came): an answer of 200 means ready;
/// otherwise poll again until the deadline has passed.
pub fn health_step(elapsed_ms: u64, status: Option<u16>) -> (r: HealthStep)
    ensures
        r == health_outcome(elapsed_ms, status),
{
    match status {
        Some(code) => if code == 200 {
            return HealthStep::Ready;
        },
        None => {},
    }
    if elapsed_ms >= HEALTH_DEADLINE_MS {
        HealthStep::GiveUp
    } else {
        HealthStep::Retry
    }
}

/// What a check for exit while stopping leads to.
#[derive(Clone, Copy, Debug, PartialEq, Eq, Structural)]
pub enum StopStep {
    Done,
    Wait,
    ForceKill,
}

pub open spec fn stop_wait_outcome(exited: bool, elapsed_ms: u64) -> StopStep {
    if exited {
        StopStep::Done
    } else if elapsed_ms > STOP_GRACE_MS {
        StopStep::ForceKill
    } else {
        StopStep::Wait
    }
}

/// The step after checking, `elapsed_ms` after the cooperative signal,
/// whether the process has exited: done if it has, killed once the grace
/// period is over, else wait.
pub fn stop_step(exited: bool, elapsed_ms: u64) -> (r: StopStep)
    ensures
        r == stop_wait_outcome(exited, elapsed_ms),
{
    if exited {
        StopStep::Done
    } else if elapsed_ms > STOP_GRACE_MS {
        StopStep::ForceKill
    } else {
        StopStep::Wait
    }
}

/// The port the companion listens on: the configured one, else `3456`.
pub fn auth_port(configured: Option<String>) -> (r: String)
    ensures
        r@ == (match configured {
            Some(p) => p@,
            None => "3456"@,
        }),
{
    match configured {
        Some(p) => p,
        None => String::from_str("3456"),
    }
}

/// The first candidate path that names a file.
pub open spec fn first_existing(c: Seq<(Seq<char>, bool)>) -> Option<Seq<char>>
    decreases c.len(),
{
    if c.len() == 0 {
        None
    } else if c[0].1 {
        Some(c[0].0)
    } else {
        first_existing(c.drop_first())
    }
}

pub open spec fn override_view(o: Option<(String, bool)>) -> Option<(Seq<char>, bool)> {
    match o {
        Some(p) => Some((p.0@, p.1)),
        None => None,
    }
}

pub open spec fn candidates_view(c: Seq<(String, bool)>) -> Seq<(Seq<char>, bool)> {
    c.map_values(|e: (String, bool)| (e.0@, e.1))
}

/// Where the script is: an override that names a file wins; otherwise the
/// first candidate, among the first `SEARCH_DEPTH`, that names a file.
pub open spec fn server_path(
    override_path: Option<(Seq<char>, bool)>,
    candidates: Seq<(Seq<char>, bool)>,
) -> Option<Seq<char>> {
    let searched = first_existing(
        if candidates.len() > SEARCH_DEPTH {
            candidates.take(SEARCH_DEPTH as int)
        } else {
            candidates
        },
    );
    match override_path {
        Some(o) => if o.1 {
            Some(o.0)
        } else {
            searched
        },
        None => searched,
    }
}

/// Picks the script's path. `override_path` is the configured path with
/// whether it names a file; `candidates` are the conventional locations in
/// the store's directory and its ancestors, nearest first, each with whether
/// it names a file.
pub fn pick_server_path(override_path: Option<(String, bool)>, candidates: Vec<(String, bool)>) -> (r:
    Option<String>)
    ensures
        opt_view(r) == server_path(override_view(override_path), candidates_view(candidates@)),
{
    let ghost want = server_path(override_view(override_path), candidates_view(candidates@));
    match override_path {
        Some(o) => if o.1 {
            return Some(o.0);
        },
        None => {},
    }
    let ghost cv = candidates_view(candidates@);
    let limit = if candidates.len() > SEARCH_DEPTH {
        SEARCH_DEPTH
    } else {
        candidates.len()
    };
    let ghost lim = cv.take(limit as int);
    assert(lim =~= (if cv.len() > SEARCH_DEPTH {
        cv.take(SEARCH_DEPTH as int)
    } else {
        cv
    }));
    assert(want == first_existing(lim));
    let cs = candidates;
    let mut i: usize = 0;
    assert(lim.skip(0) =~= lim);
    while i < limit
        invariant
            i <= limit <= cs@.len(),
            cv == candidates_view(cs@),
            lim == cv.take(limit as int),
            want == first_existing(lim),
            want == server_path(override_view(override_path), candidates_view(candidates@)),
            first_existing(lim) == first_existing(lim.skip(i as int)),
        decreases limit - i,
    {
        assert(lim.skip(i as int)[0] == (cs@[i as int].0@, cs@[i as int].1));
        if cs[i].1 {
            assert(first_existing(lim.skip(i as int)) == Some(cs@[i as int].0@));
            return Some(cs[i].0.clone());
        }
        assert(lim.skip(i as int).drop_first() =~= lim.skip(i + 1));
        i += 1;
    }
    assert(lim.skip(i as int).len() == 0);
    None
}

} // verus!
