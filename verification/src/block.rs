//! A thread's allocation block, and the generation of identifiers from it.
//!
//! A block belongs to one thread. It holds the identifier that the thread's next
//! request returns; a request hands that identifier out and moves the block on
//! by one offset, or, behind the block's last identifier, to the start of a block
//! with a newly claimed prefix.

use crate::counter::{next_global, IdSpaceExhausted, PrefixCounter};
use crate::id::{lemma_parts_of_id, ProcessUniqueId};
use vstd::prelude::*;

verus! {

broadcast use lemma_parts_of_id;

/// The first identifier of the block with the given prefix.
pub open spec fn first_of(prefix: usize) -> ProcessUniqueId {
    ProcessUniqueId::from_parts(prefix, 0)
}

/// The identifier that follows `id` in its block. The last one, at the greatest
/// offset, has none.
pub open spec fn following(id: ProcessUniqueId) -> ProcessUniqueId
    recommends
        id.offset() < u64::MAX,
{
    ProcessUniqueId::from_parts(id.prefix(), (id.offset() + 1) as u64)
}

/// The identifier `n` places after `id` in its block.
pub open spec fn nth_following(id: ProcessUniqueId, n: nat) -> ProcessUniqueId
    recommends
        id.offset() + n <= u64::MAX,
    decreases n,
{
    if n == 0 {
        id
    } else {
        following(nth_following(id, (n - 1) as nat))
    }
}

/// A thread's allocation block: a claimed prefix and the offset that is next.
///
/// A block cannot be copied: two copies would hand out the same identifiers.
#[derive(Debug)]
pub struct AllocationBlock {
    next: ProcessUniqueId,
}

impl View for AllocationBlock {
    type V = ProcessUniqueId;

    /// The identifier that the next request returns.
    closed spec fn view(&self) -> ProcessUniqueId {
        self.next
    }
}

impl AllocationBlock {
    /// The block with the given prefix, none of its offsets used.
    pub fn open(prefix: usize) -> (r: Self)
        ensures
            r@ == first_of(prefix),
    {
        AllocationBlock { next: ProcessUniqueId::from_parts(prefix, 0) }
    }

    /// The block whose next identifier is `next`: the block of `next`'s prefix
    /// with the offsets below `next`'s used. It is for the owner of that prefix
    /// to take a block up again where it stood; on anyone else's prefix it hands
    /// out what the owner hands out too.
    pub fn resume(next: ProcessUniqueId) -> (r: Self)
        ensures
            r@ == next,
    {
        AllocationBlock { next }
    }

    /// A block with a prefix newly claimed from the counter, for a thread's
    /// first request. Whether one can be had is for the counter to say; one that
    /// is had starts at offset 0, under a prefix that the counter can issue.
    pub fn claim(counter: &PrefixCounter) -> (r: Result<Self, IdSpaceExhausted>)
        ensures
            r matches Ok(block) ==> block@.offset() == 0,
            r matches Ok(block) ==> counter.first() <= block@.prefix() < usize::MAX,
    {
        match next_global(counter) {
            Ok(prefix) => Ok(AllocationBlock::open(prefix)),
            Err(exhausted) => Err(exhausted),
        }
    }

    /// The identifier that the next request returns.
    pub fn upcoming(&self) -> (r: ProcessUniqueId)
        ensures
            r == self@,
    {
        self.next
    }

    /// Hands out the next identifier and moves on by one offset. At the block's
    /// last identifier it hands out nothing and leaves the block as it is: what
    /// follows the last one takes a new prefix.
    pub fn take_next(&mut self) -> (r: Option<ProcessUniqueId>)
        ensures
            old(self)@.offset() < u64::MAX ==> r == Some(old(self)@),
            old(self)@.offset() < u64::MAX ==> final(self)@ == following(old(self)@),
            old(self)@.offset() == u64::MAX ==> r is None && final(self)@ == old(self)@,
    {
        let id = self.next;
        if id.offset() == u64::MAX {
            None
        } else {
            self.next = ProcessUniqueId::from_parts(id.prefix(), id.offset() + 1);
            Some(id)
        }
    }

    /// Hands out the next identifier and replaces the block by the one with the
    /// given prefix, which starts at offset 0.
    pub fn roll_over(&mut self, prefix: usize) -> (r: ProcessUniqueId)
        ensures
            r == old(self)@,
            final(self)@ == first_of(prefix),
    {
        let id = self.next;
        self.next = ProcessUniqueId::from_parts(prefix, 0);
        id
    }
}

impl ProcessUniqueId {
    /// Generates an identifier from the calling thread's block.
    ///
    /// The identifier is the block's next one. Below the last offset the block
    /// moves on by one and the counter is left alone. At the last offset a new
    /// prefix is claimed first: with it the block starts over at offset 0; without
    /// it nothing is handed out and the block stays as it was.
    pub fn new(block: &mut AllocationBlock, counter: &PrefixCounter) -> (r: Result<
        Self,
        IdSpaceExhausted,
    >)
        ensures
            old(block)@.offset() < u64::MAX ==> r == Ok::<Self, IdSpaceExhausted>(old(block)@),
            old(block)@.offset() < u64::MAX ==> final(block)@ == following(old(block)@),
            r matches Ok(id) ==> id == old(block)@,
            old(block)@.offset() == u64::MAX && r is Ok ==> final(block)@.offset() == 0,
            old(block)@.offset() == u64::MAX && r is Ok ==> counter.first() <= final(
                block
            )@.prefix() < usize::MAX,
            r is Err ==> final(block)@ == old(block)@,
    {
        match block.take_next() {
            Some(id) => Ok(id),
            None => match next_global(counter) {
                Ok(prefix) => Ok(block.roll_over(prefix)),
                Err(exhausted) => Err(exhausted),
            },
        }
    }
}

/// Identifiers generated one after the other from a block keep its prefix and
/// count up by one: from a block at offset `k`, the request `n` places on
/// returns offset `k + n`, as long as the block's offsets last. From a new block
/// the offsets are 0, 1, 2, and so on.
pub proof fn lemma_consecutive_offsets(start: ProcessUniqueId, n: nat)
    requires
        start.offset() + n <= u64::MAX,
    ensures
        nth_following(start, n).prefix() == start.prefix(),
        nth_following(start, n).offset() == start.offset() + n,
    decreases n,
{
    if n > 0 {
        lemma_consecutive_offsets(start, (n - 1) as nat);
    }
}

} // verus!
