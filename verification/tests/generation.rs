use puid::block::AllocationBlock;
use puid::counter::{
    claim_step, claim_target, next_global, reading_above, ClaimStep, IdSpaceExhausted,
    PrefixCounter,
};
use puid::id::ProcessUniqueId;
use std::collections::HashSet;

fn generate(block: &mut AllocationBlock, counter: &PrefixCounter) -> ProcessUniqueId {
    ProcessUniqueId::new(block, counter).unwrap()
}

#[test]
fn test_unique_id_unthreaded() {
    let counter = PrefixCounter::new();
    let mut block = AllocationBlock::claim(&counter).unwrap();
    let first_unique_id = generate(&mut block, &counter);
    // Nobody counts to u64::MAX: move the block close to its end instead.
    block = AllocationBlock::resume(ProcessUniqueId::from_parts(
        first_unique_id.prefix(),
        u64::MAX - 10,
    ));

    for i in (u64::MAX - 11)..(u64::MAX) {
        assert!(
            generate(&mut block, &counter)
                == ProcessUniqueId::from_parts(first_unique_id.prefix(), i + 1)
        );
    }
    let next = generate(&mut block, &counter);
    assert!(next.prefix() != first_unique_id.prefix());
    assert!(next.offset() == 0);
    assert!(generate(&mut block, &counter) == ProcessUniqueId::from_parts(next.prefix(), 1));
}

#[test]
fn first_identifier_of_a_process_is_zero_zero() {
    let counter = PrefixCounter::new();
    let mut block = AllocationBlock::claim(&counter).unwrap();
    let id = generate(&mut block, &counter);
    assert_eq!(id.prefix(), 0);
    assert_eq!(id.offset(), 0);
}

#[test]
fn consecutive_identifiers_count_up_under_one_prefix() {
    let counter = PrefixCounter::starting_at(41);
    let mut block = AllocationBlock::claim(&counter).unwrap();
    for expected in 0..1000u64 {
        let id = generate(&mut block, &counter);
        assert_eq!(id.prefix(), 41);
        assert_eq!(id.offset(), expected);
    }
    assert_eq!(block.upcoming(), ProcessUniqueId::from_parts(41, 1000));
}

#[test]
fn requests_within_a_block_leave_the_counter_alone() {
    let counter = PrefixCounter::new();
    let mut block = AllocationBlock::claim(&counter).unwrap();
    for _ in 0..50 {
        generate(&mut block, &counter);
    }
    assert_eq!(next_global(&counter), Ok(1));
}

#[test]
fn claims_come_in_order_from_zero() {
    let counter = PrefixCounter::new();
    assert_eq!(next_global(&counter), Ok(0));
    assert_eq!(next_global(&counter), Ok(1));
    assert_eq!(next_global(&counter), Ok(2));
}

#[test]
fn claims_start_where_the_counter_starts() {
    let counter = PrefixCounter::starting_at(700);
    assert_eq!(next_global(&counter), Ok(700));
    assert_eq!(next_global(&counter), Ok(701));
}

#[test]
fn counter_at_maximum_is_exhausted() {
    let counter = PrefixCounter::starting_at(usize::MAX);
    assert_eq!(next_global(&counter), Err(IdSpaceExhausted));
    // It stays so: nothing wraps around to 0.
    assert_eq!(next_global(&counter), Err(IdSpaceExhausted));
    assert!(AllocationBlock::claim(&counter).is_err());
}

#[test]
fn last_prefix_below_maximum_is_issued_once() {
    let counter = PrefixCounter::starting_at(usize::MAX - 1);
    assert_eq!(next_global(&counter), Ok(usize::MAX - 1));
    assert_eq!(next_global(&counter), Err(IdSpaceExhausted));
}

#[test]
fn rollover_without_a_prefix_fails_and_keeps_the_block() {
    let counter = PrefixCounter::starting_at(usize::MAX);
    let last = ProcessUniqueId::from_parts(3, u64::MAX);
    let mut block = AllocationBlock::resume(last);
    assert_eq!(ProcessUniqueId::new(&mut block, &counter), Err(IdSpaceExhausted));
    assert_eq!(block.upcoming(), last);
    assert_eq!(ProcessUniqueId::new(&mut block, &counter), Err(IdSpaceExhausted));
}

#[test]
fn request_below_the_last_offset_needs_no_prefix() {
    let counter = PrefixCounter::starting_at(usize::MAX);
    let mut block = AllocationBlock::resume(ProcessUniqueId::from_parts(3, u64::MAX - 1));
    assert_eq!(
        ProcessUniqueId::new(&mut block, &counter),
        Ok(ProcessUniqueId::from_parts(3, u64::MAX - 1))
    );
    assert_eq!(block.upcoming(), ProcessUniqueId::from_parts(3, u64::MAX));
}

#[test]
fn exhaustion_message_names_the_condition() {
    assert_eq!(
        IdSpaceExhausted.message(),
        "identifier space exhausted; reconsider the threading model"
    );
}

#[test]
fn claim_target_is_one_above() {
    assert_eq!(claim_target(0), Ok(1));
    assert_eq!(claim_target(99), Ok(100));
    assert_eq!(claim_target(usize::MAX - 1), Ok(usize::MAX));
    assert_eq!(claim_target(usize::MAX), Err(IdSpaceExhausted));
}

#[test]
fn claim_step_decides_by_what_was_seen() {
    assert_eq!(claim_step(5, 5), ClaimStep::Claimed(5));
    assert_eq!(claim_step(0, 0), ClaimStep::Claimed(0));
    assert_eq!(claim_step(5, 6), ClaimStep::Retry(6));
    assert_eq!(claim_step(5, usize::MAX), ClaimStep::Retry(usize::MAX));
    assert_eq!(claim_step(5, 4), ClaimStep::Regressed);
    assert_eq!(claim_step(usize::MAX, 0), ClaimStep::Regressed);
}

#[test]
fn block_opens_at_offset_zero() {
    let block = AllocationBlock::open(12);
    assert_eq!(block.upcoming(), ProcessUniqueId::from_parts(12, 0));
}

#[test]
fn take_next_hands_out_and_moves_on() {
    let mut block = AllocationBlock::open(12);
    assert_eq!(block.take_next(), Some(ProcessUniqueId::from_parts(12, 0)));
    assert_eq!(block.take_next(), Some(ProcessUniqueId::from_parts(12, 1)));
    assert_eq!(block.upcoming(), ProcessUniqueId::from_parts(12, 2));
}

#[test]
fn take_next_stops_at_the_last_offset() {
    let mut block = AllocationBlock::resume(ProcessUniqueId::from_parts(12, u64::MAX - 1));
    assert_eq!(block.take_next(), Some(ProcessUniqueId::from_parts(12, u64::MAX - 1)));
    assert_eq!(block.take_next(), None);
    assert_eq!(block.upcoming(), ProcessUniqueId::from_parts(12, u64::MAX));
}

#[test]
fn roll_over_hands_out_the_last_and_starts_anew() {
    let mut block = AllocationBlock::resume(ProcessUniqueId::from_parts(12, u64::MAX));
    assert_eq!(block.roll_over(13), ProcessUniqueId::from_parts(12, u64::MAX));
    assert_eq!(block.upcoming(), ProcessUniqueId::from_parts(13, 0));
}

#[test]
fn blocks_of_one_counter_differ_in_prefix() {
    let counter = PrefixCounter::new();
    let mut prefixes = HashSet::new();
    for _ in 0..128 {
        let mut block = AllocationBlock::claim(&counter).unwrap();
        let id = generate(&mut block, &counter);
        assert_eq!(id.offset(), 0);
        prefixes.insert(id.prefix());
    }
    assert_eq!(prefixes.len(), 128);
}

#[test]
fn interleaved_blocks_never_repeat_an_identifier() {
    let counter = PrefixCounter::new();
    let mut blocks = Vec::new();
    for _ in 0..8 {
        blocks.push(AllocationBlock::claim(&counter).unwrap());
    }
    let mut seen = HashSet::new();
    for _ in 0..10_000 {
        for block in blocks.iter_mut() {
            seen.insert(generate(block, &counter));
        }
    }
    assert_eq!(seen.len(), 80_000);
}

#[test]
fn interleaved_rollovers_never_repeat_an_identifier() {
    let counter = PrefixCounter::new();
    let mut blocks = Vec::new();
    for _ in 0..4 {
        let block = AllocationBlock::claim(&counter).unwrap();
        let prefix = block.upcoming().prefix();
        blocks.push(AllocationBlock::resume(ProcessUniqueId::from_parts(prefix, u64::MAX - 2)));
    }
    let mut seen = HashSet::new();
    for _ in 0..6 {
        for block in blocks.iter_mut() {
            assert!(seen.insert(generate(block, &counter)));
        }
    }
    assert_eq!(seen.len(), 24);
}

#[test]
fn counter_records_where_it_started() {
    assert_eq!(PrefixCounter::new().first(), 0);
    assert_eq!(PrefixCounter::starting_at(700).first(), 700);
    assert_eq!(PrefixCounter::starting_at(usize::MAX).first(), usize::MAX);
    let counter = PrefixCounter::starting_at(9);
    next_global(&counter).unwrap();
    assert_eq!(counter.first(), 9);
}

#[test]
fn claimed_prefixes_lie_at_or_above_the_start() {
    let counter = PrefixCounter::starting_at(300);
    for _ in 0..20 {
        let block = AllocationBlock::claim(&counter).unwrap();
        assert!(block.upcoming().prefix() >= counter.first());
        assert!(block.upcoming().prefix() < usize::MAX);
    }
}

#[test]
fn reading_counts_unless_below_the_start() {
    assert_eq!(reading_above(0, 0), Ok(0));
    assert_eq!(reading_above(5, 5), Ok(5));
    assert_eq!(reading_above(5, 9), Ok(9));
    assert_eq!(reading_above(5, usize::MAX), Ok(usize::MAX));
    assert_eq!(reading_above(5, 4), Err(IdSpaceExhausted));
    assert_eq!(reading_above(usize::MAX, 0), Err(IdSpaceExhausted));
}
