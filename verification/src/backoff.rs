//! The waits between attempts of the background sync.
use vstd::prelude::*;

#[allow(unused_imports)]
use vstd::arithmetic::power2::{lemma2_to64, lemma_pow2_unfold, pow2};

verus! {

/// The seconds before the first retry.
pub const FIRST_WAIT: u64 = 2;

/// The most seconds before a retry.
pub const LONGEST_WAIT: u64 = 60;

/// The wait that follows a wait: twice as long, up to the longest.
pub open spec fn next_wait(wait: int) -> int {
    if wait * 2 <= LONGEST_WAIT {
        wait * 2
    } else {
        LONGEST_WAIT as int
    }
}

/// The wait before a retry, the first being number zero.
pub open spec fn wait_before(retry: nat) -> int
    decreases retry,
{
    if retry == 0 {
        FIRST_WAIT as int
    } else {
        next_wait(wait_before((retry - 1) as nat))
    }
}

/// What follows the end of a sync.
#[derive(Clone, Copy, Debug, PartialEq, Eq, Structural)]
pub enum SyncStep {
    /// The sync ended of itself and is not begun again.
    Finish,
    /// The sync is begun again after this many seconds.
    RetryAfter(u64),
}

/// The wait before the next retry.
#[derive(Clone, Copy, Debug)]
pub struct Backoff {
    secs: u64,
}

impl View for Backoff {
    type V = int;

    closed spec fn view(&self) -> int {
        self.secs as int
    }
}

impl Backoff {
    #[verifier::type_invariant]
    closed spec fn in_bounds(&self) -> bool {
        FIRST_WAIT <= self.secs <= LONGEST_WAIT
    }

    /// The backoff before any failure.
    pub fn new() -> (backoff: Backoff)
        ensures
            backoff@ == wait_before(0),
    {
        Backoff { secs: FIRST_WAIT }
    }

    /// Decides what follows the end of a sync.
    pub fn after_sync(&mut self, ended_well: bool) -> (step: SyncStep)
        ensures
            ended_well ==> step == SyncStep::Finish && final(self)@ == old(self)@,
            !ended_well ==> {
                &&& step matches SyncStep::RetryAfter(secs)
                &&& secs == old(self)@
                &&& final(self)@ == next_wait(old(self)@)
            },
            FIRST_WAIT <= old(self)@ <= LONGEST_WAIT,
    {
        proof {
            use_type_invariant(&*self);
        }
        if ended_well {
            return SyncStep::Finish;
        }
        let wait = self.secs;
        let doubled: u64 = wait * 2;
        self.secs = if doubled <= LONGEST_WAIT {
            doubled
        } else {
            LONGEST_WAIT
        };
        SyncStep::RetryAfter(wait)
    }
}

/// The wait before a retry doubles from retry to retry, from two seconds up to a minute.
pub proof fn wait_doubles_up_to_a_minute(retry: nat)
    ensures
        wait_before(retry) == (if pow2(retry + 1) <= 60 {
            pow2(retry + 1) as int
        } else {
            60
        }),
    decreases retry,
{
    if retry == 0 {
        assert(pow2(1) == 2) by {
            lemma2_to64();
        }
    } else {
        wait_doubles_up_to_a_minute((retry - 1) as nat);
        lemma_pow2_unfold(retry + 1);
    }
}

/// No wait is shorter than the one before it, and none is longer than a minute.
pub proof fn waits_grow_and_stay_bounded(retry: nat)
    ensures
        FIRST_WAIT <= wait_before(retry) <= wait_before(retry + 1) <= LONGEST_WAIT,
    decreases retry,
{
    if retry > 0 {
        waits_grow_and_stay_bounded((retry - 1) as nat);
    }
}

/// A wait of up to half a minute is doubled, and a longer one is followed by a minute; the waits
/// begin with two seconds.
pub proof fn wait_follows_wait(wait: int)
    ensures
        wait_before(0) == 2,
        wait <= 30 ==> next_wait(wait) == wait + wait,
        wait >= 30 ==> next_wait(wait) == 60,
{
}

} // verus!
