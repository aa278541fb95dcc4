//! A whole process: its counter, its threads' blocks, and what it has issued.
//!
//! The threads of a process take turns at the counter, one claim at a time; in
//! what order, nothing says. A schedule names the thread of each request in the
//! order in which the requests' claims fall. What is proved here holds of every
//! schedule.

use crate::block::{first_of, following};
use crate::counter::{successor, IdSpaceExhausted};
use crate::id::{lemma_parts_of_id, ProcessUniqueId};
use vstd::prelude::*;

verus! {

broadcast use lemma_parts_of_id;

/// The state of a process between two requests.
pub struct Process {
    /// The value of the allocation counter: the next prefix to issue.
    pub counter: usize,
    /// For each thread that has made a request, the next identifier of its block.
    pub blocks: Map<int, ProcessUniqueId>,
    /// Every identifier handed out so far.
    pub issued: Set<ProcessUniqueId>,
}

/// A process that has just begun: nothing claimed, nothing issued.
pub open spec fn start() -> Process {
    Process { counter: 0, blocks: Map::empty(), issued: Set::empty() }
}

/// A request by a thread that has a block: the block's next identifier is
/// handed out and the block moves on; behind its last identifier it moves to a
/// newly claimed prefix, and where none can be claimed the request fails and
/// changes nothing.
pub open spec fn issue(s: Process, thread: int) -> (Process, Result<
    ProcessUniqueId,
    IdSpaceExhausted,
>)
    recommends
        s.blocks.dom().contains(thread),
{
    let id = s.blocks[thread];
    if id.offset() < u64::MAX {
        (
            Process {
                blocks: s.blocks.insert(thread, following(id)),
                issued: s.issued.insert(id),
                ..s
            },
            Ok(id),
        )
    } else {
        match successor(s.counter) {
            Ok(next) => (
                Process {
                    counter: next,
                    blocks: s.blocks.insert(thread, first_of(s.counter)),
                    issued: s.issued.insert(id),
                },
                Ok(id),
            ),
            Err(exhausted) => (s, Err(exhausted)),
        }
    }
}

/// A request by any thread. A thread without a block claims one first; where it
/// cannot, the request fails and changes nothing.
pub open spec fn request(s: Process, thread: int) -> (Process, Result<
    ProcessUniqueId,
    IdSpaceExhausted,
>) {
    if s.blocks.dom().contains(thread) {
        issue(s, thread)
    } else {
        match successor(s.counter) {
            Ok(next) => issue(
                Process {
                    counter: next,
                    blocks: s.blocks.insert(thread, first_of(s.counter)),
                    ..s
                },
                thread,
            ),
            Err(exhausted) => (s, Err(exhausted)),
        }
    }
}

/// The state after the requests of a schedule, from the start of the process.
pub open spec fn run(schedule: Seq<int>) -> Process
    decreases schedule.len(),
{
    if schedule.len() == 0 {
        start()
    } else {
        request(run(schedule.drop_last()), schedule.last()).0
    }
}

/// What the request at place `i` of a schedule returned.
pub open spec fn answer(schedule: Seq<int>, i: int) -> Result<ProcessUniqueId, IdSpaceExhausted>
    recommends
        0 <= i < schedule.len(),
{
    request(run(schedule.take(i)), schedule[i]).1
}

/// What holds between any two requests: every prefix in use lies below the
/// counter, no two threads share one, and what a block has issued lies below
/// what it issues next.
pub open spec fn sound(s: Process) -> bool {
    &&& forall|t: int| #[trigger]
        s.blocks.dom().contains(t) ==> s.blocks[t].prefix() < s.counter
    &&& forall|t: int, u: int|
        #![trigger s.blocks[t], s.blocks[u]]
        s.blocks.dom().contains(t) && s.blocks.dom().contains(u) && t != u
            ==> s.blocks[t].prefix() != s.blocks[u].prefix()
    &&& forall|id: ProcessUniqueId| #[trigger] s.issued.contains(id) ==> id.prefix() < s.counter
    &&& forall|id: ProcessUniqueId, t: int|
        #![trigger s.issued.contains(id), s.blocks[t]]
        s.issued.contains(id) && s.blocks.dom().contains(t) && id.prefix() == s.blocks[t].prefix()
            ==> id.offset() < s.blocks[t].offset()
}

/// A request leaves a sound process sound, hands out nothing that was handed
/// out before, and forgets nothing that was.
pub proof fn lemma_request_keeps_sound(s: Process, thread: int)
    requires
        sound(s),
    ensures
        sound(request(s, thread).0),
        request(s, thread).0.counter >= s.counter,
        request(s, thread).1 matches Ok(id) ==> !s.issued.contains(id) && request(
            s,
            thread,
        ).0.issued == s.issued.insert(id),
        request(s, thread).1 is Err ==> request(s, thread).0 == s,
{
    if s.blocks.dom().contains(thread) {
        lemma_issue_keeps_sound(s, thread);
    } else {
        match successor(s.counter) {
            Ok(next) => {
                let opened = Process {
                    counter: next,
                    blocks: s.blocks.insert(thread, first_of(s.counter)),
                    ..s
                };
                assert(sound(opened));
                lemma_issue_keeps_sound(opened, thread);
            },
            Err(_) => {},
        }
    }
}

proof fn lemma_issue_keeps_sound(s: Process, thread: int)
    requires
        sound(s),
        s.blocks.dom().contains(thread),
    ensures
        sound(issue(s, thread).0),
        issue(s, thread).0.counter >= s.counter,
        issue(s, thread).1 matches Ok(id) ==> !s.issued.contains(id) && issue(s, thread).0.issued
            == s.issued.insert(id) && id == s.blocks[thread],
        issue(s, thread).1 is Err ==> issue(s, thread).0 == s,
{
    let id = s.blocks[thread];
    let after = issue(s, thread).0;
    if s.issued.contains(id) {
        assert(id.offset() < s.blocks[thread].offset());
    }
    if id.offset() < u64::MAX || successor(s.counter) is Ok {
        assert forall|other: ProcessUniqueId, t: int|
            after.issued.contains(other) && after.blocks.dom().contains(t) && other.prefix()
                == after.blocks[t].prefix() implies other.offset() < after.blocks[t].offset() by {
            if t == thread {
                if other != id {
                    assert(s.issued.contains(other));
                    assert(other.prefix() < s.counter);
                    if id.offset() < u64::MAX {
                        assert(other.offset() < s.blocks[thread].offset());
                    }
                }
            } else {
                assert(after.blocks[t] == s.blocks[t]);
                if other == id {
                    assert(s.blocks[t].prefix() != s.blocks[thread].prefix());
                } else {
                    assert(s.issued.contains(other));
                }
            }
        }
        assert forall|t: int, u: int|
            after.blocks.dom().contains(t) && after.blocks.dom().contains(u) && t != u implies (
        #[trigger] after.blocks[t]).prefix() != (#[trigger] after.blocks[u]).prefix() by {
            if t != thread {
                assert(after.blocks[t] == s.blocks[t]);
            }
            if u != thread {
                assert(after.blocks[u] == s.blocks[u]);
            }
        }
    }
}

/// Whatever the schedule, the process is sound behind it.
pub proof fn lemma_run_is_sound(schedule: Seq<int>)
    ensures
        sound(run(schedule)),
    decreases schedule.len(),
{
    if schedule.len() > 0 {
        lemma_run_is_sound(schedule.drop_last());
        lemma_request_keeps_sound(run(schedule.drop_last()), schedule.last());
    }
}

/// The state behind the first `k + 1` requests of a schedule is the state
/// behind the first `k`, and then the request at place `k`.
proof fn lemma_run_unfolds(schedule: Seq<int>, k: int)
    requires
        0 <= k < schedule.len(),
    ensures
        run(schedule.take(k + 1)) == request(run(schedule.take(k)), schedule[k]).0,
{
    assert(schedule.take(k + 1).drop_last() =~= schedule.take(k));
}

/// What was handed out by place `i` of a schedule is still on record at any
/// later place `j`.
proof fn lemma_issued_stays(schedule: Seq<int>, i: int, j: int, id: ProcessUniqueId)
    requires
        0 <= i <= j <= schedule.len(),
        run(schedule.take(i)).issued.contains(id),
    ensures
        run(schedule.take(j)).issued.contains(id),
    decreases j - i,
{
    if i < j {
        lemma_issued_stays(schedule, i, j - 1, id);
        lemma_run_is_sound(schedule.take(j - 1));
        lemma_request_keeps_sound(run(schedule.take(j - 1)), schedule[j - 1]);
        lemma_run_unfolds(schedule, j - 1);
    }
}

/// No identifier is handed out twice: whatever the threads and however their
/// requests fall, two requests that both return an identifier return different
/// ones.
pub proof fn lemma_no_identifier_twice(schedule: Seq<int>, i: int, j: int)
    requires
        0 <= i < j < schedule.len(),
        answer(schedule, i) is Ok,
        answer(schedule, j) is Ok,
    ensures
        answer(schedule, i) != answer(schedule, j),
{
    let first = answer(schedule, i)->Ok_0;
    lemma_run_is_sound(schedule.take(i));
    lemma_request_keeps_sound(run(schedule.take(i)), schedule[i]);
    lemma_run_unfolds(schedule, i);
    assert(run(schedule.take(i + 1)).issued.contains(first));
    lemma_issued_stays(schedule, i + 1, j, first);
    lemma_run_is_sound(schedule.take(j));
    lemma_request_keeps_sound(run(schedule.take(j)), schedule[j]);
}

/// No two threads hold the same prefix: whatever the schedule, the blocks of
/// two different threads that have made requests differ in their prefixes.
pub proof fn lemma_threads_differ_in_prefix(schedule: Seq<int>, t: int, u: int)
    requires
        t != u,
        run(schedule).blocks.dom().contains(t),
        run(schedule).blocks.dom().contains(u),
    ensures
        run(schedule).blocks[t].prefix() != run(schedule).blocks[u].prefix(),
{
    lemma_run_is_sound(schedule);
}

/// A counter at its maximum issues nothing more and does not start over: a
/// request that needs a prefix then fails, and leaves the process as it was.
pub proof fn lemma_exhaustion_is_final(s: Process, thread: int)
    requires
        s.counter == usize::MAX,
        !s.blocks.dom().contains(thread) || s.blocks[thread].offset() == u64::MAX,
    ensures
        request(s, thread) == (s, Err::<ProcessUniqueId, IdSpaceExhausted>(IdSpaceExhausted)),
{
}

/// Behind a block's last identifier comes a new block. The request that finds
/// the block at the greatest offset returns that identifier; the next returns
/// offset 0 under a prefix that the thread did not have before, and the one
/// after it offset 1 under that same prefix.
pub proof fn lemma_rollover(s: Process, thread: int)
    requires
        sound(s),
        s.blocks.dom().contains(thread),
        s.blocks[thread].offset() == u64::MAX,
        s.counter < usize::MAX,
    ensures
        ({
            let last = request(s, thread);
            let first = request(last.0, thread);
            let second = request(first.0, thread);
            &&& last.1 == Ok::<ProcessUniqueId, IdSpaceExhausted>(s.blocks[thread])
            &&& first.1 == Ok::<ProcessUniqueId, IdSpaceExhausted>(first_of(s.counter))
            &&& second.1 == Ok::<ProcessUniqueId, IdSpaceExhausted>(following(first_of(s.counter)))
            &&& first_of(s.counter).prefix() != s.blocks[thread].prefix()
            &&& following(first_of(s.counter)).prefix() == first_of(s.counter).prefix()
            &&& following(first_of(s.counter)).offset() == 1
        }),
{
    let last = request(s, thread);
    assert(last.0.blocks[thread] == first_of(s.counter));
    let first = request(last.0, thread);
    assert(first.0.blocks[thread] == following(first_of(s.counter)));
}

/// Below a block's last identifier a request is the thread's own affair: it
/// returns the block's next identifier, moves the block on by one offset, and
/// leaves the counter and every other thread's block alone.
pub proof fn lemma_request_within_block(s: Process, thread: int)
    requires
        s.blocks.dom().contains(thread),
        s.blocks[thread].offset() < u64::MAX,
    ensures
        request(s, thread).1 == Ok::<ProcessUniqueId, IdSpaceExhausted>(s.blocks[thread]),
        request(s, thread).0.counter == s.counter,
        request(s, thread).0.blocks == s.blocks.insert(thread, following(s.blocks[thread])),
{
}

} // verus!
