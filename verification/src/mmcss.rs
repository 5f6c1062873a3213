//! Scheduler elevation: the multimedia-class scheduling priority codes, the
//! per-thread boost guard used by the present interceptor, and the control
//! block that disables execution-speed power throttling for a process.
//!
//! Registering a thread with the scheduling service, reverting it, and
//! applying the control block are operating-system calls and live outside
//! this crate; the values handed to those calls, and the once-per-thread
//! discipline, are decided here.

use vstd::prelude::*;

verus! {

/// A thread's multimedia scheduling priority within its task class.
#[derive(Clone, Copy, PartialEq, Eq, Structural, Debug)]
pub enum MmcssPriority {
    Low,
    Normal,
    High,
    Critical,
}

/// The reserved numeric code the scheduling service expects for each
/// priority level.
pub open spec fn spec_avrt_code(p: MmcssPriority) -> i32 {
    match p {
        MmcssPriority::Low => -1i32,
        MmcssPriority::Normal => 0i32,
        MmcssPriority::High => 1i32,
        MmcssPriority::Critical => 2i32,
    }
}

/// Maps a priority level to the scheduling service's reserved code.
pub fn avrt_priority_code(p: MmcssPriority) -> (code: i32)
    ensures
        code == spec_avrt_code(p),
{
    match p {
        MmcssPriority::Low => -1,
        MmcssPriority::Normal => 0,
        MmcssPriority::High => 1,
        MmcssPriority::Critical => 2,
    }
}

/// Version code of the process power-throttling control block.
pub const POWER_THROTTLING_CURRENT_VERSION: u32 = 1;

/// Control-mask bit selecting execution-speed throttling.
pub const POWER_THROTTLING_EXECUTION_SPEED: u32 = 1;

/// The process power-throttling control block (PROCESS_POWER_THROTTLING_STATE)
/// as plain values.
#[derive(Clone, Copy, PartialEq, Eq, Structural, Debug)]
pub struct PowerThrottlingState {
    pub version: u32,
    pub control_mask: u32,
    pub state_mask: u32,
}

/// The control block that disables execution-speed power throttling: current
/// version, the execution-speed bit selected, and a cleared state mask
/// (cleared means "do not throttle").
pub fn execution_speed_throttling_off() -> (s: PowerThrottlingState)
    ensures
        s.version == POWER_THROTTLING_CURRENT_VERSION,
        s.control_mask == POWER_THROTTLING_EXECUTION_SPEED,
        s.state_mask == 0,
{
    PowerThrottlingState { version: 1, control_mask: 1, state_mask: 0 }
}

/// Whether one present call fires the boost: only on a thread not yet
/// boosted, and only when the scheduling service granted a registration.
pub open spec fn spec_boost_fires(boosted: bool, grant: Option<usize>) -> bool {
    !boosted && grant is Some
}

/// The guard's state after one present call: a boosted thread stays boosted;
/// an unboosted one becomes boosted exactly when a registration was granted
/// (a denial leaves it unboosted, to be retried on a later present).
pub open spec fn spec_boost_step(boosted: bool, grant: Option<usize>) -> bool {
    boosted || grant is Some
}

/// Per-thread guard around scheduling elevation: each presenting thread is
/// boosted lazily on its first present and at most once for its life. The
/// guard holds the registration token once granted.
pub struct BoostGuard {
    cookie: Option<usize>,
}

impl BoostGuard {
    /// The registration token held for this thread, if any.
    pub closed spec fn spec_cookie(self) -> Option<usize> {
        self.cookie
    }

    /// Whether this thread has been boosted.
    pub open spec fn boosted(self) -> bool {
        self.spec_cookie() is Some
    }

    pub fn new() -> (g: Self)
        ensures
            !g.boosted(),
    {
        BoostGuard { cookie: None }
    }

    /// Whether the next present call on this thread should attempt a
    /// registration with the scheduling service.
    pub fn needs_boost(&self) -> (r: bool)
        ensures
            r == !self.boosted(),
    {
        self.cookie.is_none()
    }

    /// Feeds one present call's registration outcome into the guard (`None`:
    /// no registration was granted, whether because none was attempted or
    /// because the service refused). Returns whether the boost fired — that
    /// is, whether the thread's elevation is to be applied now.
    pub fn apply_grant(&mut self, grant: Option<usize>) -> (fired: bool)
        ensures
            fired == spec_boost_fires(old(self).boosted(), grant),
            final(self).boosted() == spec_boost_step(old(self).boosted(), grant),
            !fired ==> *final(self) == *old(self),
            fired ==> final(self).spec_cookie() == grant,
    {
        if self.cookie.is_none() {
            match grant {
                Some(c) => {
                    self.cookie = Some(c);
                    true
                },
                None => false,
            }
        } else {
            false
        }
    }
}

/// How many times the boost fires over a whole run of present calls on one
/// thread, given the guard's starting state and each call's grant.
pub open spec fn spec_boost_run_fires(boosted: bool, grants: Seq<Option<usize>>) -> nat
    decreases grants.len(),
{
    if grants.len() == 0 {
        0
    } else {
        (if spec_boost_fires(boosted, grants[0]) {
            1nat
        } else {
            0nat
        }) + spec_boost_run_fires(spec_boost_step(boosted, grants[0]), grants.drop_first())
    }
}

/// Law: across arbitrarily many present calls on one thread the boost fires
/// at most once, and never again once the thread is boosted.
pub proof fn lemma_boost_fires_at_most_once(boosted: bool, grants: Seq<Option<usize>>)
    ensures
        spec_boost_run_fires(boosted, grants) <= 1,
        boosted ==> spec_boost_run_fires(boosted, grants) == 0,
    decreases grants.len(),
{
    if grants.len() > 0 {
        lemma_boost_fires_at_most_once(spec_boost_step(boosted, grants[0]), grants.drop_first());
    }
}

} // verus!
