use cairo_felt::Felt252;
use vm_memory::errors::MemoryError;
use vm_memory::hint_reference::{ApTracking, HintReference, ReferenceTable};
use vm_memory::memory::Memory;
use vm_memory::relocatable::{MaybeRelocatable, Relocatable};
use vm_memory::resolver::apply_ap_tracking_correction;

fn reloc(segment_index: usize, offset: usize) -> Relocatable {
    Relocatable { segment_index, offset }
}

#[test]
fn write_to_unallocated_segment_fails() {
    let mut mem = Memory::new();
    mem.add_segment();
    let r = reloc(5, 0);
    assert_eq!(
        mem.insert(&r, MaybeRelocatable::Int(Felt252::new(1))),
        Err(MemoryError::UnallocatedSegment(1, 5))
    );
    // The failed write left the memory unchanged.
    assert_eq!(mem.num_segments(), 1);
    assert_eq!(mem.get(&r), None);
}

#[test]
fn write_then_read_raw_round_trips() {
    let mut mem = Memory::new();
    mem.add_segment();
    mem.add_segment();
    let a = reloc(1, 3);
    let v = MaybeRelocatable::RelocatableValue(reloc(0, 7));
    assert_eq!(mem.insert(&a, v), Ok(()));
    assert_eq!(mem.get(&a), Some(MaybeRelocatable::RelocatableValue(reloc(0, 7))));
    // The gap the write jumped over stays unset.
    assert_eq!(mem.get(&reloc(1, 0)), None);
    assert_eq!(mem.get(&reloc(1, 2)), None);

    let w = MaybeRelocatable::Int(Felt252::new(9));
    assert_eq!(mem.insert(&a, w), Ok(()));
    assert_eq!(mem.get(&a), Some(MaybeRelocatable::Int(Felt252::new(9))));
}

#[test]
fn unallocated_and_unwritten_reads_are_both_none() {
    let mut mem = Memory::new();
    mem.add_segment();
    // Unallocated segment and never-written cell collapse to one signal.
    assert_eq!(mem.get(&reloc(3, 0)), None);
    assert_eq!(mem.get(&reloc(0, 0)), None);
}

#[test]
fn add_segment_returns_consecutive_indices() {
    let mut mem = Memory::new();
    assert_eq!(mem.add_segment(), 0);
    assert_eq!(mem.add_segment(), 1);
    assert_eq!(mem.num_segments(), 2);
}

#[test]
fn memory_error_message_renders_both_counters() {
    assert_eq!(
        MemoryError::UnallocatedSegment(1, 5).message(),
        "Can't insert into segment #5; memory only has 1 segment"
    );
    assert_eq!(
        MemoryError::UnallocatedSegment(12, 340).message(),
        "Can't insert into segment #340; memory only has 12 segment"
    );
}

#[test]
fn relocatable_arithmetic() {
    let a = reloc(2, 5);
    assert_eq!(a.add_usize(3), Some(reloc(2, 8)));
    assert_eq!(a.add_i32(-5), Some(reloc(2, 0)));
    assert_eq!(a.add_i32(-6), None);
    assert_eq!(a.add_usize(usize::MAX), None);
    assert_eq!(reloc(2, 9).sub(&a), Some(4));
    assert_eq!(a.sub(&reloc(2, 9)), None);
    assert_eq!(a.sub(&reloc(1, 0)), None);
}

#[test]
fn ap_tracking_correction_moves_register_back() {
    let ap = reloc(1, 10);
    assert_eq!(
        apply_ap_tracking_correction(
            &ap,
            &ApTracking { group: 3, offset: 2 },
            &ApTracking { group: 3, offset: 6 },
        ),
        Some(reloc(1, 6))
    );
    // A drift larger than the register's value cannot be corrected.
    assert_eq!(
        apply_ap_tracking_correction(
            &ap,
            &ApTracking { group: 3, offset: 0 },
            &ApTracking { group: 3, offset: 11 },
        ),
        None
    );
    // Different groups are unrelated contexts.
    assert_eq!(
        apply_ap_tracking_correction(
            &ap,
            &ApTracking { group: 1, offset: 0 },
            &ApTracking { group: 2, offset: 0 },
        ),
        None
    );
}

#[test]
fn reference_table_insert_replaces_binding() {
    let mut ids_data = ReferenceTable::new();
    ids_data.insert("x", HintReference::new_simple(1));
    ids_data.insert("y", HintReference::new_simple(2));
    ids_data.insert("x", HintReference::new_simple(3));

    assert_eq!(ids_data.get("x"), Some(&HintReference::new_simple(3)));
    assert_eq!(ids_data.get("y"), Some(&HintReference::new_simple(2)));
    assert_eq!(ids_data.get("z"), None);
}
