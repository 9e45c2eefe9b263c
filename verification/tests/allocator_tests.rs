use roc_host::allocator::{
    checked_next_power_of_two, deallocation_base, metadata_stride, place_allocation,
    place_reallocation, plan_allocation, plan_reallocation, AllocError, BlockPlan, HeaderWrite,
    Placement, MAX_ALLOCATION_LENGTH,
};
use roc_host::lifecycle::FATAL_EXIT_CODE;

const WORD: usize = std::mem::size_of::<usize>();
const GUARD: u8 = 0xA5;

fn plan(alignment: usize, length: usize) -> BlockPlan {
    match plan_allocation(alignment, length) {
        Ok(plan) => plan,
        Err(error) => panic!("no plan for alignment {alignment}, length {length}: {error:?}"),
    }
}

fn store(memory: &mut [u8], write: HeaderWrite) {
    memory[write.address..write.address + WORD].copy_from_slice(&write.value.to_ne_bytes());
}

fn store_header(memory: &mut [u8], placement: &Placement) {
    store(memory, placement.size_slot);
    if let Some(slot) = placement.alignment_slot {
        store(memory, slot);
    }
}

#[test]
fn next_power_of_two_rounds_up() {
    assert_eq!(checked_next_power_of_two(0), Some(1));
    assert_eq!(checked_next_power_of_two(1), Some(1));
    assert_eq!(checked_next_power_of_two(2), Some(2));
    assert_eq!(checked_next_power_of_two(3), Some(4));
    assert_eq!(checked_next_power_of_two(16), Some(16));
    assert_eq!(checked_next_power_of_two(17), Some(32));
    assert_eq!(checked_next_power_of_two(1000), Some(1024));
}

#[test]
fn next_power_of_two_at_the_end_of_the_range() {
    let top = 1usize << (usize::BITS - 1);
    assert_eq!(checked_next_power_of_two(top), Some(top));
    assert_eq!(checked_next_power_of_two(top - 1), Some(top));
    assert_eq!(checked_next_power_of_two(top + 1), None);
    assert_eq!(checked_next_power_of_two(usize::MAX), None);
}

#[test]
fn next_power_of_two_agrees_with_std() {
    for n in 0..5000usize {
        assert_eq!(checked_next_power_of_two(n), n.checked_next_power_of_two());
    }
}

#[test]
fn stride_is_at_least_a_word() {
    assert_eq!(metadata_stride(0), Some(WORD));
    assert_eq!(metadata_stride(1), Some(WORD));
    assert_eq!(metadata_stride(2), Some(WORD));
    assert_eq!(metadata_stride(WORD), Some(WORD));
}

#[test]
fn stride_is_rounded_up_to_a_power_of_two() {
    assert_eq!(metadata_stride(16), Some(16));
    assert_eq!(metadata_stride(24), Some(32));
    assert_eq!(metadata_stride(33), Some(64));
    assert_eq!(metadata_stride(4096), Some(4096));
    assert_eq!(metadata_stride(4097), Some(8192));
}

#[test]
fn stride_of_an_alignment_that_is_too_large() {
    let top = 1usize << (usize::BITS - 1);
    assert_eq!(metadata_stride(top), Some(top));
    assert_eq!(metadata_stride(top + 1), None);
    assert_eq!(metadata_stride(usize::MAX), None);
}

#[test]
fn plan_adds_the_stride_to_the_length() {
    let small = plan(1, 100);
    assert_eq!(small.stride(), WORD);
    assert_eq!(small.total_size(), 100 + WORD);

    let wide = plan(64, 100);
    assert_eq!(wide.stride(), 64);
    assert_eq!(wide.total_size(), 164);
}

#[test]
fn plan_for_an_empty_payload_asks_for_the_header() {
    let empty = plan(16, 0);
    assert_eq!(empty.stride(), 16);
    assert_eq!(empty.total_size(), 16);
}

#[test]
fn plan_accepts_the_largest_length() {
    let largest = plan(8, MAX_ALLOCATION_LENGTH);
    assert_eq!(MAX_ALLOCATION_LENGTH, 1024 * 1024 * 1024);
    assert_eq!(largest.total_size(), MAX_ALLOCATION_LENGTH + largest.stride());
}

#[test]
fn plan_refuses_a_length_above_the_ceiling() {
    assert_eq!(
        plan_allocation(8, MAX_ALLOCATION_LENGTH + 1).err(),
        Some(AllocError::LengthTooLarge)
    );
    assert_eq!(plan_allocation(8, usize::MAX).err(), Some(AllocError::LengthTooLarge));
}

#[test]
fn two_gibibytes_end_the_process_without_a_pointer() {
    let request = 2usize * 1024 * 1024 * 1024;
    let outcome = plan_allocation(8, request);
    assert_eq!(outcome.err(), Some(AllocError::LengthTooLarge));
    assert_ne!(FATAL_EXIT_CODE, 0);
    assert_eq!(FATAL_EXIT_CODE, 1);
}

#[test]
fn plan_refuses_an_alignment_without_a_stride() {
    assert_eq!(plan_allocation(usize::MAX, 1).err(), Some(AllocError::UnsupportedAlignment));
}

#[test]
fn length_is_checked_before_alignment() {
    assert_eq!(
        plan_allocation(usize::MAX, MAX_ALLOCATION_LENGTH + 1).err(),
        Some(AllocError::LengthTooLarge)
    );
}

#[test]
fn placement_with_a_header_of_one_word() {
    let placement = place_allocation(&plan(1, 100), 0x1000);
    assert_eq!(
        placement,
        Ok(Placement {
            answer: 0x1000 + WORD,
            size_slot: HeaderWrite { address: 0x1000, value: 100 + WORD },
            alignment_slot: None,
        })
    );
}

#[test]
fn placement_with_room_for_the_alignment_word() {
    let stride = 2 * WORD;
    let placement = place_allocation(&plan(stride, 40), 0x2000);
    assert_eq!(
        placement,
        Ok(Placement {
            answer: 0x2000 + stride,
            size_slot: HeaderWrite { address: 0x2000 + stride - WORD, value: 40 + stride },
            alignment_slot: Some(HeaderWrite { address: 0x2000, value: stride }),
        })
    );
}

#[test]
fn placement_with_a_large_alignment() {
    let placement = place_allocation(&plan(4096, 10), 0x10000);
    assert_eq!(
        placement,
        Ok(Placement {
            answer: 0x11000,
            size_slot: HeaderWrite { address: 0x11000 - WORD, value: 4106 },
            alignment_slot: Some(HeaderWrite { address: 0x10000, value: 4096 }),
        })
    );
}

#[test]
fn null_from_the_platform_is_out_of_memory() {
    assert_eq!(place_allocation(&plan(8, 100), 0), Err(AllocError::OutOfMemory));
}

#[test]
fn block_past_the_end_of_the_address_space() {
    let block = plan(8, 100);
    let last_fit = usize::MAX - block.total_size();
    assert!(place_allocation(&block, last_fit).is_ok());
    assert_eq!(place_allocation(&block, last_fit + 1), Err(AllocError::InvalidAddress));
    assert_eq!(place_allocation(&block, usize::MAX), Err(AllocError::InvalidAddress));
}

#[test]
fn release_finds_the_start_of_the_block() {
    assert_eq!(deallocation_base(0x1000 + WORD, 1), Ok(0x1000));
    assert_eq!(deallocation_base(0x2040, 64), Ok(0x2000));
    assert_eq!(deallocation_base(64, 64), Ok(0));
}

#[test]
fn release_of_a_pointer_below_its_header() {
    assert_eq!(deallocation_base(63, 64), Err(AllocError::InvalidAddress));
    assert_eq!(deallocation_base(0, 1), Err(AllocError::InvalidAddress));
}

#[test]
fn release_with_an_alignment_without_a_stride() {
    assert_eq!(deallocation_base(0x1000, usize::MAX), Err(AllocError::UnsupportedAlignment));
}

#[test]
fn resize_plans_from_the_old_block() {
    let resize = match plan_reallocation(0x2040, 64, 500) {
        Ok(resize) => resize,
        Err(error) => panic!("no plan: {error:?}"),
    };
    assert_eq!(resize.old_base(), 0x2000);
    assert_eq!(resize.block().stride(), 64);
    assert_eq!(resize.block().total_size(), 564);
}

#[test]
fn resize_to_nothing_keeps_the_header() {
    let resize = plan_reallocation(0x2040, 64, 0).ok().unwrap();
    assert_eq!(resize.block().total_size(), 64);
}

#[test]
fn resize_has_no_ceiling_but_the_word() {
    let resize = plan_reallocation(0x2040, 64, usize::MAX).ok().unwrap();
    assert_eq!(resize.block().total_size(), usize::MAX);
    assert_eq!(place_reallocation(&resize, 0), Err(AllocError::OutOfMemory));
    assert_eq!(place_reallocation(&resize, 0x3000), Err(AllocError::InvalidAddress));
}

#[test]
fn resize_refuses_what_release_refuses() {
    assert_eq!(plan_reallocation(63, 64, 10).err(), Some(AllocError::InvalidAddress));
    assert_eq!(
        plan_reallocation(0x1000, usize::MAX, 10).err(),
        Some(AllocError::UnsupportedAlignment)
    );
}

#[test]
fn resized_block_stores_its_size_only() {
    let stride = 2 * WORD;
    let resize = plan_reallocation(0x2000 + stride, stride, 300).ok().unwrap();
    assert_eq!(
        place_reallocation(&resize, 0x8000),
        Ok(Placement {
            answer: 0x8000 + stride,
            size_slot: HeaderWrite { address: 0x8000 + stride - WORD, value: 300 + stride },
            alignment_slot: None,
        })
    );
}

#[test]
fn answer_is_aligned_where_the_block_is() {
    for shift in 0..13 {
        let alignment = 1usize << shift;
        for length in [0usize, 1, 7, 100, 4096] {
            let block = plan(alignment, length);
            for base in [alignment.max(16), 3 * alignment.max(16), 0x40000] {
                let placement = place_allocation(&block, base).ok().unwrap();
                assert_eq!(placement.answer % alignment, 0);
                assert_eq!(placement.answer - base, block.stride());
            }
        }
    }
}

#[test]
fn stride_is_the_same_at_allocation_and_at_release() {
    for alignment in [0usize, 1, 2, 3, 8, 16, 24, 64, 100, 4096] {
        for length in [0usize, 5, 1000] {
            let block = plan(alignment, length);
            let base = 0x7000;
            let placement = place_allocation(&block, base).ok().unwrap();
            assert_eq!(deallocation_base(placement.answer, alignment), Ok(base));
            let resize = plan_reallocation(placement.answer, alignment, 2 * length).ok().unwrap();
            assert_eq!(resize.old_base(), base);
            assert_eq!(resize.block().stride(), block.stride());
        }
    }
}

#[test]
fn header_stays_between_the_guards() {
    for alignment in [1usize, 8, 16, 32, 256] {
        for length in [0usize, 1, 100] {
            let block = plan(alignment, length);
            let base = 512;
            let mut memory = vec![GUARD; 2048];
            let placement = place_allocation(&block, base).ok().unwrap();
            store_header(&mut memory, &placement);
            for byte in &mut memory[placement.answer..placement.answer + length] {
                *byte = 0x11;
            }
            assert!(memory[..base].iter().all(|byte| *byte == GUARD));
            assert!(memory[base + block.total_size()..].iter().all(|byte| *byte == GUARD));
            assert_eq!(placement.answer + length, base + block.total_size());

            let mut size_word = [0u8; WORD];
            size_word.copy_from_slice(&memory[placement.answer - WORD..placement.answer]);
            assert_eq!(usize::from_ne_bytes(size_word), block.total_size());
            assert_eq!(deallocation_base(placement.answer, alignment), Ok(base));
        }
    }
}

#[test]
fn resize_keeps_the_start_of_the_payload() {
    for alignment in [1usize, 16, 64] {
        for (old_length, new_length) in [(100usize, 300usize), (300, 100), (50, 50), (0, 20), (20, 0)] {
            let block = plan(alignment, old_length);
            let old_base = 256;
            let mut old_memory = vec![GUARD; 1024];
            let placed = place_allocation(&block, old_base).ok().unwrap();
            store_header(&mut old_memory, &placed);
            for (i, byte) in old_memory[placed.answer..placed.answer + old_length].iter_mut().enumerate() {
                *byte = (i % 251) as u8;
            }

            let resize = plan_reallocation(placed.answer, alignment, new_length).ok().unwrap();
            assert_eq!(resize.old_base(), old_base);
            let new_base = 128;
            let mut new_memory = vec![GUARD; 1024];
            let common = block.total_size().min(resize.block().total_size());
            new_memory[new_base..new_base + common]
                .copy_from_slice(&old_memory[old_base..old_base + common]);
            let moved = place_reallocation(&resize, new_base).ok().unwrap();
            store_header(&mut new_memory, &moved);

            let kept = old_length.min(new_length);
            assert_eq!(
                &new_memory[moved.answer..moved.answer + kept],
                &old_memory[placed.answer..placed.answer + kept]
            );
            let mut size_word = [0u8; WORD];
            size_word.copy_from_slice(&new_memory[moved.answer - WORD..moved.answer]);
            assert_eq!(usize::from_ne_bytes(size_word), new_length + block.stride());
            assert!(new_memory[..new_base].iter().all(|byte| *byte == GUARD));
            assert!(new_memory[new_base + resize.block().total_size()..]
                .iter()
                .all(|byte| *byte == GUARD));
        }
    }
}
