//! The process-wide allocation counter, from which prefixes are claimed.
//!
//! The counter is the only state that threads share. A claim reads it and tries
//! to install the value one above what it read; where another thread's claim
//! came first, it tries again from what that thread left.

use std::sync::atomic::{AtomicUsize, Ordering};
use vstd::prelude::*;

verus! {

/// The counter has no further prefix that is sure to be new.
///
/// This ends the process's supply of identifiers for good: it is never retried
/// and never answered by wrapping around.
#[derive(Copy, Clone, PartialEq, Eq, Structural, Debug)]
pub struct IdSpaceExhausted;

impl IdSpaceExhausted {
    /// What to tell the user: the condition and what to do about it, with no
    /// counter value in it.
    pub fn message(&self) -> (r: &'static str)
        ensures
            r@ == "identifier space exhausted; reconsider the threading model"@,
    {
        "identifier space exhausted; reconsider the threading model"
    }
}

/// What one attempt to claim a prefix came to.
#[derive(Copy, Clone, PartialEq, Eq, Structural, Debug)]
pub enum ClaimStep {
    /// The counter held what was expected: that value is now this caller's.
    Claimed(usize),
    /// Another claim came first; try again from the value it left.
    Retry(usize),
    /// The counter holds less than was read from it before: it has started
    /// over, and what it issues from here on may repeat.
    Regressed,
}

/// What an attempt comes to that expected the counter to hold `prev` and found
/// `seen` in it.
pub open spec fn claim_outcome(prev: usize, seen: usize) -> ClaimStep {
    if seen == prev {
        ClaimStep::Claimed(prev)
    } else if seen > prev {
        ClaimStep::Retry(seen)
    } else {
        ClaimStep::Regressed
    }
}

/// Decides what follows an attempt that expected `prev` and found `seen`.
pub fn claim_step(prev: usize, seen: usize) -> (r: ClaimStep)
    ensures
        r == claim_outcome(prev, seen),
{
    if seen == prev {
        ClaimStep::Claimed(prev)
    } else if seen > prev {
        ClaimStep::Retry(seen)
    } else {
        ClaimStep::Regressed
    }
}

/// The value that a claim installs over `prev`, where there is one.
pub open spec fn successor(prev: usize) -> Result<usize, IdSpaceExhausted> {
    if prev == usize::MAX {
        Err(IdSpaceExhausted)
    } else {
        Ok((prev + 1) as usize)
    }
}

/// The value to install over `prev`. A counter at its maximum has issued every
/// prefix but the last, which is never issued: nothing could follow it.
pub fn claim_target(prev: usize) -> (r: Result<usize, IdSpaceExhausted>)
    ensures
        r == successor(prev),
        r is Err <==> prev == usize::MAX,
        r matches Ok(next) ==> next == prev + 1,
{
    if prev == usize::MAX {
        Err(IdSpaceExhausted)
    } else {
        Ok(prev + 1)
    }
}

/// The process-wide allocation counter: the next prefix to issue, and where it
/// started. Only claims change it, each by one upwards.
pub struct PrefixCounter {
    value: AtomicUsize,
    first: usize,
}

impl PrefixCounter {
    /// A counter that has issued nothing and starts at 0.
    pub fn new() -> (r: Self)
        ensures
            r.first() == 0,
    {
        PrefixCounter { value: AtomicUsize::new(0), first: 0 }
    }

    /// A counter that starts at `first`, as if `first` claims had been made.
    pub fn starting_at(first: usize) -> (r: Self)
        ensures
            r.first() == first,
    {
        PrefixCounter { value: AtomicUsize::new(first), first }
    }
}

/// Claims a prefix from the counter.
///
/// What comes back depends on what other threads do to the counter meanwhile;
/// [`reading_above`], [`claim_target`] and [`claim_step`] say how each reading
/// and each attempt is decided. A counter at its maximum, or one seen to move
/// backwards, has no prefix left that is sure to be new: the claim then fails.
/// Whatever the other threads do, what is issued lies at or above the counter's
/// start and below the maximum.
pub fn next_global(counter: &PrefixCounter) -> (r: Result<usize, IdSpaceExhausted>)
    ensures
        r matches Ok(prefix) ==> counter.first() <= prefix < usize::MAX,
{
    let mut prev: usize = match reading_above(
        counter.first,
        counter.value.load(Ordering::Relaxed),
    ) {
        Ok(value) => value,
        Err(exhausted) => {
            return Err(exhausted);
        },
    };
    loop
        invariant
            counter.first() <= prev,
        decreases usize::MAX - prev,
    {
        let next: usize = match claim_target(prev) {
            Ok(next) => next,
            Err(exhausted) => {
                return Err(exhausted);
            },
        };
        let seen: usize = match counter.value.compare_exchange(
            prev,
            next,
            Ordering::Relaxed,
            Ordering::Relaxed,
        ) {
            Ok(value) => value,
            Err(value) => value,
        };
        match claim_step(prev, seen) {
            ClaimStep::Claimed(prefix) => {
                return Ok(prefix);
            },
            ClaimStep::Retry(current) => {
                prev = current;
            },
            ClaimStep::Regressed => {
                return Err(IdSpaceExhausted);
            },
        }
    }
}

impl PrefixCounter {
    /// The value that the counter started at, as contracts speak of it.
    pub closed spec fn spec_first(&self) -> usize {
        self.first
    }

    /// The value that the counter started at: the lowest prefix it can issue.
    #[verifier::when_used_as_spec(spec_first)]
    pub fn first(&self) -> (r: usize)
        ensures
            r == self.spec_first(),
    {
        self.first
    }
}

/// What a reading of the counter is worth, where the counter started at
/// `first`: the value read, unless it lies below `first`. A counter below its
/// start has started over, and what it issues from there on may repeat.
pub open spec fn reading_outcome(first: usize, seen: usize) -> Result<usize, IdSpaceExhausted> {
    if seen < first {
        Err(IdSpaceExhausted)
    } else {
        Ok(seen)
    }
}

/// Decides what a reading `seen` is worth on a counter that started at `first`.
pub fn reading_above(first: usize, seen: usize) -> (r: Result<usize, IdSpaceExhausted>)
    ensures
        r == reading_outcome(first, seen),
{
    if seen < first {
        Err(IdSpaceExhausted)
    } else {
        Ok(seen)
    }
}

} // verus!
