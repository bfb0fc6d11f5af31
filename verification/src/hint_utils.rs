//! Typed accessors over named variables: each takes a variable name, the
//! machine state, the reference table and the current tracking context,
//! resolves the name through the table and the resolver, and reads or writes
//! memory with the requested variant enforced. Reads never change the
//! machine; writes may grow one segment and never move the registers.

use crate::errors::{HintError, MemoryError, VirtualMachineError};
use crate::hint_reference::{ApTracking, HintReference, OffsetValue, ReferenceTable};
use crate::memory::{cell_at, mem_written};
use crate::relocatable::{MaybeRelocatable, Relocatable};
use crate::resolver::{
    compute_addr_from_reference, get_integer_from_reference, get_maybe_relocatable_from_reference,
    spec_integer_at, spec_ptr_at, spec_resolve_addr, spec_value_at, Resolution,
};
use crate::vm_core::{spec_ap, spec_fp, VirtualMachine};
use cairo_felt::Felt252;
use vstd::prelude::*;

verus! {

/// Writes `value` at the address the named variable resolves to. The name
/// must be in the table and its reference must resolve; the write then
/// fails only on an unallocated segment, and that memory error is wrapped
/// unmodified.
pub fn insert_value_from_var_name(
    var_name: &str,
    value: MaybeRelocatable,
    vm: &mut VirtualMachine,
    ids_data: &ReferenceTable,
    ap_tracking: &ApTracking,
) -> (res: Result<(), HintError>)
    ensures
        final(vm).run_context == old(vm).run_context,
        !ids_data@.contains_key(var_name@) ==> res == Err::<(), HintError>(
            HintError::FailedToGetIds,
        ) && final(vm).memory@ == old(vm).memory@,
        ids_data@.contains_key(var_name@) ==> match spec_resolve_addr(
            ids_data@[var_name@],
            old(vm).memory@,
            spec_ap(*old(vm)),
            spec_fp(*old(vm)),
            *ap_tracking,
        ) {
            Resolution::Address(a) => match res {
                Ok(()) => {
                    &&& a.segment_index < old(vm).memory@.len()
                    &&& final(vm).memory@ == mem_written(old(vm).memory@, a, value)
                },
                Err(e) => {
                    &&& a.segment_index >= old(vm).memory@.len()
                    &&& e == HintError::Internal(
                        VirtualMachineError::MemoryError(
                            MemoryError::UnallocatedSegment(
                                old(vm).memory@.len() as usize,
                                a.segment_index,
                            ),
                        ),
                    )
                    &&& final(vm).memory@ == old(vm).memory@
                },
            },
            Resolution::Failure => res == Err::<(), HintError>(HintError::FailedToGetIds)
                && final(vm).memory@ == old(vm).memory@,
            Resolution::IntOffset(base) => match res {
                Ok(()) => exists|a: Relocatable|
                    #![auto]
                    a.segment_index == base.segment_index && base.offset <= a.offset
                        && final(vm).memory@ == mem_written(old(vm).memory@, a, value),
                Err(e) => final(vm).memory@ == old(vm).memory@ && (e == HintError::FailedToGetIds
                    || e matches HintError::Internal(VirtualMachineError::MemoryError(_))),
            },
        },
{
    let var_address = match get_relocatable_from_var_name(var_name, vm, ids_data, ap_tracking) {
        Ok(a) => a,
        Err(e) => { return Err(e) },
    };
    match vm.insert_value(&var_address, value) {
        Ok(()) => Ok(()),
        Err(e) => Err(HintError::Internal(e)),
    }
}

/// Writes `value` at the address the allocation register holds — the top of
/// the stack. Fails exactly when the execution segment is unallocated.
pub fn insert_value_into_ap(vm: &mut VirtualMachine, value: MaybeRelocatable) -> (res: Result<
    (),
    HintError,
>)
    ensures
        final(vm).run_context == old(vm).run_context,
        match res {
            Ok(()) => {
                &&& spec_ap(*old(vm)).segment_index < old(vm).memory@.len()
                &&& final(vm).memory@ == mem_written(old(vm).memory@, spec_ap(*old(vm)), value)
            },
            Err(e) => {
                &&& spec_ap(*old(vm)).segment_index >= old(vm).memory@.len()
                &&& e == HintError::Internal(
                    VirtualMachineError::MemoryError(
                        MemoryError::UnallocatedSegment(
                            old(vm).memory@.len() as usize,
                            spec_ap(*old(vm)).segment_index,
                        ),
                    ),
                )
                &&& final(vm).memory@ == old(vm).memory@
            },
        },
{
    let ap = vm.get_ap();
    match vm.insert_value(&ap, value) {
        Ok(()) => Ok(()),
        Err(e) => Err(HintError::Internal(e)),
    }
}

/// Fetches the pointer the named variable denotes: for a dereferencing
/// reference the cell at the resolved address, which must hold a pointer;
/// for a non-dereferencing one the resolved address itself.
pub fn get_ptr_from_var_name(
    var_name: &str,
    vm: &VirtualMachine,
    ids_data: &ReferenceTable,
    ap_tracking: &ApTracking,
) -> (res: Result<Relocatable, HintError>)
    ensures
        !ids_data@.contains_key(var_name@) ==> res == Err::<Relocatable, HintError>(
            HintError::FailedToGetIds,
        ),
        ids_data@.contains_key(var_name@) ==> match spec_resolve_addr(
            ids_data@[var_name@],
            vm.memory@,
            spec_ap(*vm),
            spec_fp(*vm),
            *ap_tracking,
        ) {
            Resolution::Address(a) => res == spec_ptr_at(vm.memory@, ids_data@[var_name@], a),
            Resolution::Failure => res == Err::<Relocatable, HintError>(HintError::FailedToGetIds),
            Resolution::IntOffset(base) => match res {
                Ok(p) => {
                    &&& ids_data@[var_name@].dereference ==> exists|a: Relocatable|
                        #![auto]
                        a.segment_index == base.segment_index && base.offset <= a.offset && cell_at(
                            vm.memory@,
                            a,
                        ) == Some(MaybeRelocatable::RelocatableValue(p))
                    &&& !ids_data@[var_name@].dereference ==> p.segment_index == base.segment_index
                        && base.offset <= p.offset
                },
                Err(e) => e == HintError::FailedToGetIds || (exists|v: MaybeRelocatable|
                    #![auto]
                    e == HintError::Internal(VirtualMachineError::ExpectedRelocatable(v))),
            },
        },
{
    let var_addr = match get_relocatable_from_var_name(var_name, vm, ids_data, ap_tracking) {
        Ok(a) => a,
        Err(e) => { return Err(e) },
    };
    let hint_reference = match ids_data.get(var_name) {
        Some(r) => r,
        None => { return Err(HintError::FailedToGetIds) },
    };
    if hint_reference.dereference {
        match vm.get_maybe(&var_addr) {
            Some(MaybeRelocatable::RelocatableValue(p)) => Ok(p),
            Some(v) => Err(HintError::Internal(VirtualMachineError::ExpectedRelocatable(v))),
            None => Err(HintError::FailedToGetIds),
        }
    } else {
        Ok(var_addr)
    }
}

/// Computes the named variable's address and hands it back as a generic
/// cell value, for callers that need the address itself rather than its
/// contents. Reads nothing and changes nothing.
pub fn get_address_from_var_name(
    var_name: &str,
    vm: &mut VirtualMachine,
    ids_data: &ReferenceTable,
    ap_tracking: &ApTracking,
) -> (res: Result<MaybeRelocatable, HintError>)
    ensures
        *final(vm) == *old(vm),
        !ids_data@.contains_key(var_name@) ==> res == Err::<MaybeRelocatable, HintError>(
            HintError::FailedToGetIds,
        ),
        ids_data@.contains_key(var_name@) ==> match spec_resolve_addr(
            ids_data@[var_name@],
            old(vm).memory@,
            spec_ap(*old(vm)),
            spec_fp(*old(vm)),
            *ap_tracking,
        ) {
            Resolution::Address(a) => res == Ok::<MaybeRelocatable, HintError>(
                MaybeRelocatable::RelocatableValue(a),
            ),
            Resolution::Failure => res == Err::<MaybeRelocatable, HintError>(
                HintError::FailedToGetIds,
            ),
            Resolution::IntOffset(base) => match res {
                Ok(v) => exists|a: Relocatable|
                    #![auto]
                    v == MaybeRelocatable::RelocatableValue(a) && a.segment_index
                        == base.segment_index && base.offset <= a.offset,
                Err(e) => e == HintError::FailedToGetIds,
            },
        },
{
    match ids_data.get(var_name) {
        Some(hint_reference) => match compute_addr_from_reference(hint_reference, vm, ap_tracking) {
            Ok(a) => Ok(MaybeRelocatable::RelocatableValue(a)),
            Err(e) => Err(e),
        },
        None => Err(HintError::FailedToGetIds),
    }
}

/// Computes the named variable's address as a concrete segment-relative
/// address.
pub fn get_relocatable_from_var_name(
    var_name: &str,
    vm: &VirtualMachine,
    ids_data: &ReferenceTable,
    ap_tracking: &ApTracking,
) -> (res: Result<Relocatable, HintError>)
    ensures
        !ids_data@.contains_key(var_name@) ==> res == Err::<Relocatable, HintError>(
            HintError::FailedToGetIds,
        ),
        ids_data@.contains_key(var_name@) ==> match spec_resolve_addr(
            ids_data@[var_name@],
            vm.memory@,
            spec_ap(*vm),
            spec_fp(*vm),
            *ap_tracking,
        ) {
            Resolution::Address(a) => res == Ok::<Relocatable, HintError>(a),
            Resolution::Failure => res == Err::<Relocatable, HintError>(HintError::FailedToGetIds),
            Resolution::IntOffset(base) => match res {
                Ok(r) => r.segment_index == base.segment_index && base.offset <= r.offset,
                Err(e) => e == HintError::FailedToGetIds,
            },
        },
{
    match ids_data.get(var_name) {
        Some(hint_reference) => compute_addr_from_reference(hint_reference, vm, ap_tracking),
        None => Err(HintError::FailedToGetIds),
    }
}

/// Fetches the named variable's value, which must be an integer: an
/// immediate reference's literal, else the resolved cell's integer —
/// a stored pointer is the type mismatch carrying the stored value.
pub fn get_integer_from_var_name(
    var_name: &str,
    vm: &VirtualMachine,
    ids_data: &ReferenceTable,
    ap_tracking: &ApTracking,
) -> (res: Result<Felt252, HintError>)
    ensures
        !ids_data@.contains_key(var_name@) ==> res == Err::<Felt252, HintError>(
            HintError::FailedToGetIds,
        ),
        ids_data@.contains_key(var_name@) ==> {
            let hr = ids_data@[var_name@];
            &&& hr.offset1 matches OffsetValue::Immediate(f) ==> res == Ok::<Felt252, HintError>(f)
            &&& !(hr.offset1 matches OffsetValue::Immediate(_)) ==> match spec_resolve_addr(
                hr,
                vm.memory@,
                spec_ap(*vm),
                spec_fp(*vm),
                *ap_tracking,
            ) {
                Resolution::Address(a) => res == spec_integer_at(vm.memory@, a),
                Resolution::Failure => res == Err::<Felt252, HintError>(HintError::FailedToGetIds),
                Resolution::IntOffset(base) => match res {
                    Ok(i) => exists|a: Relocatable|
                        #![auto]
                        a.segment_index == base.segment_index && base.offset <= a.offset && cell_at(
                            vm.memory@,
                            a,
                        ) == Some(MaybeRelocatable::Int(i)),
                    Err(e) => e == HintError::FailedToGetIds || (exists|v: MaybeRelocatable|
                        #![auto]
                        e == HintError::Internal(VirtualMachineError::ExpectedInteger(v))),
                },
            }
        },
{
    match get_reference_from_var_name(var_name, ids_data) {
        Ok(reference) => get_integer_from_reference(vm, reference, ap_tracking),
        Err(e) => Err(e),
    }
}

/// Fetches the named variable's value without variant enforcement: an
/// immediate reference's literal as an integer value, a dereferencing
/// reference's stored cell, a non-dereferencing reference's address.
pub fn get_maybe_relocatable_from_var_name(
    var_name: &str,
    vm: &VirtualMachine,
    ids_data: &ReferenceTable,
    ap_tracking: &ApTracking,
) -> (res: Result<MaybeRelocatable, HintError>)
    ensures
        !ids_data@.contains_key(var_name@) ==> res == Err::<MaybeRelocatable, HintError>(
            HintError::FailedToGetIds,
        ),
        ids_data@.contains_key(var_name@) ==> {
            let hr = ids_data@[var_name@];
            &&& hr.offset1 matches OffsetValue::Immediate(f) ==> res == Ok::<
                MaybeRelocatable,
                HintError,
            >(MaybeRelocatable::Int(f))
            &&& !(hr.offset1 matches OffsetValue::Immediate(_)) ==> match spec_resolve_addr(
                hr,
                vm.memory@,
                spec_ap(*vm),
                spec_fp(*vm),
                *ap_tracking,
            ) {
                Resolution::Address(a) => res == spec_value_at(vm.memory@, hr, a),
                Resolution::Failure => res == Err::<MaybeRelocatable, HintError>(
                    HintError::FailedToGetIds,
                ),
                Resolution::IntOffset(base) => match res {
                    Ok(v) => hr.dereference ==> exists|a: Relocatable|
                        #![auto]
                        a.segment_index == base.segment_index && base.offset <= a.offset && cell_at(
                            vm.memory@,
                            a,
                        ) == Some(v),
                    Err(e) => e == HintError::FailedToGetIds,
                },
            }
        },
{
    match get_reference_from_var_name(var_name, ids_data) {
        Ok(reference) => get_maybe_relocatable_from_reference(vm, reference, ap_tracking),
        Err(e) => Err(e),
    }
}

/// Looks the named variable's symbolic reference up in the table; absence
/// is the one absence error, whatever the machine state.
pub fn get_reference_from_var_name<'a>(var_name: &str, ids_data: &'a ReferenceTable) -> (res:
    Result<&'a HintReference, HintError>)
    ensures
        match res {
            Ok(hr) => ids_data@.contains_key(var_name@) && *hr == ids_data@[var_name@],
            Err(e) => e == HintError::FailedToGetIds && !ids_data@.contains_key(var_name@),
        },
{
    match ids_data.get(var_name) {
        Some(r) => Ok(r),
        None => Err(HintError::FailedToGetIds),
    }
}

} // verus!
