use cairo_felt::Felt252;
use vm_memory::errors::{HintError, MemoryError, VirtualMachineError};
use vm_memory::hint_reference::{ApTracking, HintReference, OffsetValue, ReferenceTable, Register};
use vm_memory::hint_utils::{
    get_address_from_var_name, get_integer_from_var_name, get_maybe_relocatable_from_var_name,
    get_ptr_from_var_name, get_reference_from_var_name, get_relocatable_from_var_name,
    insert_value_from_var_name, insert_value_into_ap,
};
use vm_memory::memory::Memory;
use vm_memory::relocatable::{MaybeRelocatable, Relocatable};
use vm_memory::vm_core::VirtualMachine;

fn reloc(segment_index: usize, offset: usize) -> Relocatable {
    Relocatable { segment_index, offset }
}

fn ptr(segment_index: usize, offset: usize) -> MaybeRelocatable {
    MaybeRelocatable::RelocatableValue(reloc(segment_index, offset))
}

fn felt_int(v: u64) -> MaybeRelocatable {
    MaybeRelocatable::Int(Felt252::new(v))
}

fn memory_with(segments: usize, cells: Vec<((usize, usize), MaybeRelocatable)>) -> Memory {
    let mut mem = Memory::new();
    for _ in 0..segments {
        mem.add_segment();
    }
    for ((si, off), v) in cells {
        mem.insert(&reloc(si, off), v).unwrap();
    }
    mem
}

fn table_with(name: &str, reference: HintReference) -> ReferenceTable {
    let mut ids_data = ReferenceTable::new();
    ids_data.insert(name, reference);
    ids_data
}

#[test]
fn get_ptr_from_var_name_immediate_value() {
    let mut vm = VirtualMachine::new();
    vm.memory = memory_with(2, vec![((1, 0), ptr(0, 0))]);
    let mut hint_ref = HintReference::new(0, 0, true, false);
    hint_ref.offset2 = OffsetValue::Value(2);
    let ids_data = table_with("imm", hint_ref);

    assert_eq!(
        get_ptr_from_var_name("imm", &vm, &ids_data, &ApTracking::new()),
        Ok(reloc(0, 2))
    );
}

#[test]
fn get_maybe_relocatable_from_var_name_valid() {
    let mut vm = VirtualMachine::new();
    vm.memory = memory_with(2, vec![((1, 0), ptr(0, 0))]);
    let hint_ref = HintReference::new_simple(0);
    let ids_data = table_with("value", hint_ref);

    assert_eq!(
        get_maybe_relocatable_from_var_name("value", &vm, &ids_data, &ApTracking::new()),
        Ok(ptr(0, 0))
    );
}

#[test]
fn get_maybe_relocatable_from_var_name_invalid() {
    let mut vm = VirtualMachine::new();
    vm.memory = Memory::new();
    let hint_ref = HintReference::new_simple(0);
    let ids_data = table_with("value", hint_ref);

    assert_eq!(
        get_maybe_relocatable_from_var_name("value", &vm, &ids_data, &ApTracking::new()),
        Err(HintError::FailedToGetIds)
    );
}

#[test]
fn get_ptr_from_var_name_valid() {
    let mut vm = VirtualMachine::new();
    vm.memory = memory_with(2, vec![((1, 0), ptr(0, 0))]);
    let hint_ref = HintReference::new_simple(0);
    let ids_data = table_with("value", hint_ref);

    assert_eq!(
        get_ptr_from_var_name("value", &vm, &ids_data, &ApTracking::new()),
        Ok(reloc(0, 0))
    );
}

#[test]
fn get_ptr_from_var_name_invalid() {
    let mut vm = VirtualMachine::new();
    vm.memory = memory_with(2, vec![((1, 0), felt_int(0))]);
    let hint_ref = HintReference::new_simple(0);
    let ids_data = table_with("value", hint_ref);

    assert_eq!(
        get_ptr_from_var_name("value", &vm, &ids_data, &ApTracking::new()),
        Err(HintError::Internal(VirtualMachineError::ExpectedRelocatable(felt_int(0))))
    );
}

#[test]
fn get_relocatable_from_var_name_valid() {
    let mut vm = VirtualMachine::new();
    vm.memory = memory_with(2, vec![((1, 0), ptr(0, 0))]);
    let hint_ref = HintReference::new_simple(0);
    let ids_data = table_with("value", hint_ref);

    assert_eq!(
        get_relocatable_from_var_name("value", &vm, &ids_data, &ApTracking::new()),
        Ok(reloc(1, 0))
    );
}

#[test]
fn get_relocatable_from_var_name_invalid() {
    let mut vm = VirtualMachine::new();
    vm.memory = Memory::new();
    let hint_ref = HintReference::new_simple(-8);
    let ids_data = table_with("value", hint_ref);

    assert_eq!(
        get_relocatable_from_var_name("value", &vm, &ids_data, &ApTracking::new()),
        Err(HintError::FailedToGetIds)
    );
}

#[test]
fn get_integer_from_var_name_valid() {
    let mut vm = VirtualMachine::new();
    vm.memory = memory_with(2, vec![((1, 0), felt_int(1))]);
    let hint_ref = HintReference::new_simple(0);
    let ids_data = table_with("value", hint_ref);

    assert_eq!(
        get_integer_from_var_name("value", &vm, &ids_data, &ApTracking::new()),
        Ok(Felt252::new(1))
    );
}

#[test]
fn get_integer_from_var_name_invalid() {
    let mut vm = VirtualMachine::new();
    vm.memory = memory_with(2, vec![((1, 0), ptr(0, 0))]);
    let hint_ref = HintReference::new_simple(0);
    let ids_data = table_with("value", hint_ref);

    assert_eq!(
        get_integer_from_var_name("value", &vm, &ids_data, &ApTracking::new()),
        Err(HintError::Internal(VirtualMachineError::ExpectedInteger(ptr(0, 0))))
    );
}

#[test]
fn get_integer_from_var_name_immediate() {
    let mut vm = VirtualMachine::new();
    vm.memory = Memory::new();
    let mut hint_ref = HintReference::new_simple(0);
    hint_ref.offset1 = OffsetValue::Immediate(Felt252::new(42u64));
    let ids_data = table_with("imm", hint_ref);

    assert_eq!(
        get_integer_from_var_name("imm", &vm, &ids_data, &ApTracking::new()),
        Ok(Felt252::new(42u64))
    );
}

#[test]
fn get_maybe_relocatable_from_var_name_immediate() {
    let mut vm = VirtualMachine::new();
    vm.memory = Memory::new();
    let mut hint_ref = HintReference::new_simple(0);
    hint_ref.offset1 = OffsetValue::Immediate(Felt252::new(7u64));
    let ids_data = table_with("imm", hint_ref);

    assert_eq!(
        get_maybe_relocatable_from_var_name("imm", &vm, &ids_data, &ApTracking::new()),
        Ok(MaybeRelocatable::Int(Felt252::new(7u64)))
    );
}

#[test]
fn accessors_unknown_variable_fail() {
    let mut vm = VirtualMachine::new();
    vm.memory = memory_with(2, vec![((1, 0), felt_int(1))]);
    let ids_data = table_with("value", HintReference::new_simple(0));
    let tracking = ApTracking::new();

    assert_eq!(
        get_ptr_from_var_name("missing", &vm, &ids_data, &tracking),
        Err(HintError::FailedToGetIds)
    );
    assert_eq!(
        get_relocatable_from_var_name("missing", &vm, &ids_data, &tracking),
        Err(HintError::FailedToGetIds)
    );
    assert_eq!(
        get_integer_from_var_name("missing", &vm, &ids_data, &tracking),
        Err(HintError::FailedToGetIds)
    );
    assert_eq!(
        get_maybe_relocatable_from_var_name("missing", &vm, &ids_data, &tracking),
        Err(HintError::FailedToGetIds)
    );
    assert_eq!(
        get_reference_from_var_name("missing", &ids_data),
        Err(HintError::FailedToGetIds)
    );
    let mut vm_mut = VirtualMachine::new();
    vm_mut.memory = memory_with(2, vec![]);
    assert_eq!(
        get_address_from_var_name("missing", &mut vm_mut, &ids_data, &tracking),
        Err(HintError::FailedToGetIds)
    );
    assert_eq!(
        insert_value_from_var_name("missing", felt_int(1), &mut vm_mut, &ids_data, &tracking),
        Err(HintError::FailedToGetIds)
    );
}

#[test]
fn unwritten_cell_reads_as_absence() {
    // Both segments allocated, nothing ever written: typed reads report the
    // absence signal, not a type mismatch.
    let mut vm = VirtualMachine::new();
    vm.memory = memory_with(2, vec![]);
    let ids_data = table_with("value", HintReference::new_simple(0));
    let tracking = ApTracking::new();

    assert_eq!(vm.memory.get(&reloc(1, 0)), None);
    assert_eq!(
        get_maybe_relocatable_from_var_name("value", &vm, &ids_data, &tracking),
        Err(HintError::FailedToGetIds)
    );
    assert_eq!(
        get_ptr_from_var_name("value", &vm, &ids_data, &tracking),
        Err(HintError::FailedToGetIds)
    );
    assert_eq!(
        get_integer_from_var_name("value", &vm, &ids_data, &tracking),
        Err(HintError::FailedToGetIds)
    );
}

#[test]
fn get_ptr_without_dereference_ignores_memory() {
    // dereference = false: the resolved address itself comes back, even
    // though the cell there holds an integer.
    let mut vm = VirtualMachine::new();
    vm.memory = memory_with(2, vec![((1, 0), felt_int(9))]);
    let hint_ref = HintReference::new(0, 0, false, false);
    let ids_data = table_with("value", hint_ref);

    assert_eq!(
        get_ptr_from_var_name("value", &vm, &ids_data, &ApTracking::new()),
        Ok(reloc(1, 0))
    );
}

#[test]
fn get_address_from_var_name_valid() {
    let mut vm = VirtualMachine::new();
    vm.memory = memory_with(2, vec![]);
    let ids_data = table_with("value", HintReference::new_simple(3));

    assert_eq!(
        get_address_from_var_name("value", &mut vm, &ids_data, &ApTracking::new()),
        Ok(ptr(1, 3))
    );
}

#[test]
fn get_reference_from_var_name_valid() {
    let ids_data = table_with("value", HintReference::new_simple(4));

    assert_eq!(
        get_reference_from_var_name("value", &ids_data),
        Ok(&HintReference::new_simple(4))
    );
}

#[test]
fn insert_value_from_var_name_then_read_back() {
    let mut vm = VirtualMachine::new();
    vm.memory = memory_with(2, vec![]);
    // A non-dereferencing reference names the cell fp + 2 itself.
    let hint_ref = HintReference::new(2, 0, false, false);
    let ids_data = table_with("out", hint_ref);
    let tracking = ApTracking::new();

    assert_eq!(
        insert_value_from_var_name("out", ptr(0, 5), &mut vm, &ids_data, &tracking),
        Ok(())
    );
    assert_eq!(vm.memory.get(&reloc(1, 2)), Some(ptr(0, 5)));

    // Overwriting with the other variant round-trips too.
    assert_eq!(
        insert_value_from_var_name("out", felt_int(11), &mut vm, &ids_data, &tracking),
        Ok(())
    );
    assert_eq!(vm.memory.get(&reloc(1, 2)), Some(felt_int(11)));
}

#[test]
fn insert_value_from_var_name_unallocated_segment() {
    let mut vm = VirtualMachine::new();
    vm.memory = Memory::new();
    let hint_ref = HintReference::new(0, 0, false, false);
    let ids_data = table_with("out", hint_ref);

    assert_eq!(
        insert_value_from_var_name("out", felt_int(1), &mut vm, &ids_data, &ApTracking::new()),
        Err(HintError::Internal(VirtualMachineError::MemoryError(
            MemoryError::UnallocatedSegment(0, 1)
        )))
    );
}

#[test]
fn insert_value_into_ap_then_read_back() {
    let mut vm = VirtualMachine::new();
    vm.memory = memory_with(2, vec![]);
    vm.run_context.ap = 4;

    assert_eq!(insert_value_into_ap(&mut vm, felt_int(33)), Ok(()));
    assert_eq!(vm.memory.get(&reloc(1, 4)), Some(felt_int(33)));
}

#[test]
fn ap_reference_applies_drift_correction() {
    // The reference was recorded at tracking offset 2; by now the hint runs
    // at offset 4, so the allocation register has drifted by 2 and the
    // reference still resolves to the cell it was compiled against.
    let mut vm = VirtualMachine::new();
    vm.memory = memory_with(2, vec![]);
    vm.run_context.ap = 5;
    let mut hint_ref = HintReference::new_simple(0);
    hint_ref.offset1 = OffsetValue::Reference(Register::AP, 0, false);
    hint_ref.ap_tracking_data = Some(ApTracking { group: 0, offset: 2 });
    let ids_data = table_with("value", hint_ref);
    let hint_tracking = ApTracking { group: 0, offset: 4 };

    assert_eq!(
        get_relocatable_from_var_name("value", &vm, &ids_data, &hint_tracking),
        Ok(reloc(1, 3))
    );
}

#[test]
fn ap_reference_group_mismatch_fails() {
    let mut vm = VirtualMachine::new();
    vm.memory = memory_with(2, vec![]);
    vm.run_context.ap = 5;
    let mut hint_ref = HintReference::new_simple(0);
    hint_ref.offset1 = OffsetValue::Reference(Register::AP, 0, false);
    hint_ref.ap_tracking_data = Some(ApTracking { group: 1, offset: 0 });
    let ids_data = table_with("value", hint_ref);
    let hint_tracking = ApTracking { group: 2, offset: 0 };

    assert_eq!(
        get_relocatable_from_var_name("value", &vm, &ids_data, &hint_tracking),
        Err(HintError::FailedToGetIds)
    );
}

#[test]
fn integer_secondary_offset_from_memory() {
    // The secondary offset is itself a dereferenced register expression: the
    // cell at fp + 1 holds the integer 3, so the reference resolves 3 cells
    // past the primary address fp + 0.
    let mut vm = VirtualMachine::new();
    vm.memory = memory_with(2, vec![((1, 1), felt_int(3))]);
    let mut hint_ref = HintReference::new(0, 0, false, false);
    hint_ref.offset2 = OffsetValue::Reference(Register::FP, 1, true);
    let ids_data = table_with("value", hint_ref);

    assert_eq!(
        get_relocatable_from_var_name("value", &vm, &ids_data, &ApTracking::new()),
        Ok(reloc(1, 3))
    );
}
