//! The reference resolver: evaluates a symbolic reference against the
//! current register values, a drift correction and the memory, producing a
//! concrete address or a typed value.
//!
//! The whole evaluation is mirrored by specification functions over the
//! memory model and plain register addresses; the one step those functions
//! leave open is the narrowing of a field-element secondary offset to a
//! machine integer, whose outcome depends on the opaque field-element value.
//! That step is reported as `Resolution::IntOffset`, and the executable
//! functions then state what holds of every possible outcome.

use crate::errors::{HintError, VirtualMachineError};
use crate::felt::felt_to_usize;
use crate::hint_reference::{ApTracking, HintReference, OffsetValue, Register};
use crate::memory::{cell_at, MemModel};
use crate::relocatable::{spec_add_int, MaybeRelocatable, Relocatable};
use crate::vm_core::{spec_ap, spec_fp, VirtualMachine};
use cairo_felt::Felt252;
use vstd::prelude::*;

verus! {

/// The drift-corrected allocation register: the register's value moved back
/// by how far it has advanced since the reference's tracking context was
/// recorded. `None` when the two contexts belong to different groups (no
/// correction relates them) or the corrected offset leaves the machine
/// range.
pub open spec fn spec_ap_correction(ap: Relocatable, ref_t: ApTracking, cur_t: ApTracking) -> Option<
    Relocatable,
> {
    if ref_t.group != cur_t.group {
        None
    } else {
        spec_add_int(ap, ref_t.offset - cur_t.offset)
    }
}

/// The base address a register selector contributes: the frame register as
/// it stands, the allocation register after drift correction (which needs
/// the reference's recorded tracking context).
pub open spec fn spec_base_addr(
    reg: Register,
    ref_track: Option<ApTracking>,
    ap: Relocatable,
    fp: Relocatable,
    cur: ApTracking,
) -> Option<Relocatable> {
    match reg {
        Register::FP => Some(fp),
        Register::AP => match ref_track {
            Some(rt) => spec_ap_correction(ap, rt, cur),
            None => None,
        },
    }
}

/// One register-relative offset expression evaluated: base register plus
/// offset, then the cell there if the expression is dereferenced. `None` is
/// the single absence outcome: no base, an out-of-range address, or a
/// missing cell.
pub open spec fn spec_offset_ref(
    mem: MemModel,
    ref_track: Option<ApTracking>,
    ap: Relocatable,
    fp: Relocatable,
    cur: ApTracking,
    reg: Register,
    off: int,
    deref: bool,
) -> Option<MaybeRelocatable> {
    match spec_base_addr(reg, ref_track, ap, fp, cur) {
        None => None,
        Some(b) => match spec_add_int(b, off) {
            None => None,
            Some(addr) => if deref {
                cell_at(mem, addr)
            } else {
                Some(MaybeRelocatable::RelocatableValue(addr))
            },
        },
    }
}

/// What resolving a reference's address comes to. `Address` pins the
/// address exactly; `Failure` is the single absence outcome; `IntOffset`
/// records that a field-element secondary offset must still be narrowed to a
/// machine integer and added to the primary address — the final address is
/// then known only to lie at or past that base, in its segment.
pub enum Resolution {
    Address(Relocatable),
    IntOffset(Relocatable),
    Failure,
}

/// The resolver's address computation over the model: the primary offset
/// expression must be register-relative and name an address; a literal
/// secondary offset is added directly, a register-relative secondary must
/// name an integer to add.
pub open spec fn spec_resolve_addr(
    hr: HintReference,
    mem: MemModel,
    ap: Relocatable,
    fp: Relocatable,
    cur: ApTracking,
) -> Resolution {
    match hr.offset1 {
        OffsetValue::Reference(reg1, off1, deref1) => match spec_offset_ref(
            mem,
            hr.ap_tracking_data,
            ap,
            fp,
            cur,
            reg1,
            off1 as int,
            deref1,
        ) {
            Some(MaybeRelocatable::RelocatableValue(base)) => match hr.offset2 {
                OffsetValue::Value(v2) => match spec_add_int(base, v2 as int) {
                    Some(r) => Resolution::Address(r),
                    None => Resolution::Failure,
                },
                OffsetValue::Reference(reg2, off2, deref2) => match spec_offset_ref(
                    mem,
                    hr.ap_tracking_data,
                    ap,
                    fp,
                    cur,
                    reg2,
                    off2 as int,
                    deref2,
                ) {
                    Some(MaybeRelocatable::Int(_)) => Resolution::IntOffset(base),
                    _ => Resolution::Failure,
                },
                OffsetValue::Immediate(_) => Resolution::Failure,
            },
            _ => Resolution::Failure,
        },
        _ => Resolution::Failure,
    }
}

/// What reading an integer at a resolved address yields: the stored
/// integer; the stored value inside a type-mismatch error if the cell holds
/// a pointer; the absence signal if it was never written.
pub open spec fn spec_integer_at(mem: MemModel, a: Relocatable) -> Result<Felt252, HintError> {
    match cell_at(mem, a) {
        Some(MaybeRelocatable::Int(i)) => Ok(i),
        Some(v) => Err(HintError::Internal(VirtualMachineError::ExpectedInteger(v))),
        None => Err(HintError::FailedToGetIds),
    }
}

/// What reading a pointer through a reference at a resolved address yields:
/// with the dereference flag the cell there must hold a pointer — a stored
/// integer is a type mismatch carrying the stored value, a missing cell the
/// absence signal; without the flag the address itself is the pointer.
pub open spec fn spec_ptr_at(mem: MemModel, hr: HintReference, a: Relocatable) -> Result<
    Relocatable,
    HintError,
> {
    if hr.dereference {
        match cell_at(mem, a) {
            Some(MaybeRelocatable::RelocatableValue(p)) => Ok(p),
            Some(v) => Err(HintError::Internal(VirtualMachineError::ExpectedRelocatable(v))),
            None => Err(HintError::FailedToGetIds),
        }
    } else {
        Ok(a)
    }
}

/// What reading a reference's value without variant enforcement yields:
/// with the dereference flag the cell's content (absence if never written),
/// without it the resolved address as a value.
pub open spec fn spec_value_at(mem: MemModel, hr: HintReference, a: Relocatable) -> Result<
    MaybeRelocatable,
    HintError,
> {
    if hr.dereference {
        match cell_at(mem, a) {
            Some(v) => Ok(v),
            None => Err(HintError::FailedToGetIds),
        }
    } else {
        Ok(MaybeRelocatable::RelocatableValue(a))
    }
}

/// An allocated-but-never-written cell is one absence: every typed read at
/// such an address reports the absence signal, never a type mismatch, and a
/// non-dereferencing read is untouched by memory contents.
pub proof fn lemma_unwritten_cell_reads_absent(mem: MemModel, hr: HintReference, a: Relocatable)
    requires
        a.segment_index < mem.len(),
        cell_at(mem, a) is None,
    ensures
        spec_integer_at(mem, a) == Err::<Felt252, HintError>(HintError::FailedToGetIds),
        hr.dereference ==> spec_ptr_at(mem, hr, a) == Err::<Relocatable, HintError>(
            HintError::FailedToGetIds,
        ),
        hr.dereference ==> spec_value_at(mem, hr, a) == Err::<MaybeRelocatable, HintError>(
            HintError::FailedToGetIds,
        ),
{
}

/// Type enforcement: a dereferencing pointer read of a cell holding an
/// integer fails with the pointer-type mismatch carrying that stored value,
/// and an integer read of a cell holding a pointer fails with the
/// integer-type mismatch carrying that stored value.
pub proof fn lemma_type_enforcement(
    mem: MemModel,
    hr: HintReference,
    a: Relocatable,
    x: Felt252,
    p: Relocatable,
)
    requires
        hr.dereference,
    ensures
        cell_at(mem, a) == Some(MaybeRelocatable::Int(x)) ==> spec_ptr_at(mem, hr, a) == Err::<
            Relocatable,
            HintError,
        >(HintError::Internal(VirtualMachineError::ExpectedRelocatable(MaybeRelocatable::Int(x)))),
        cell_at(mem, a) == Some(MaybeRelocatable::RelocatableValue(p)) ==> spec_integer_at(mem, a)
            == Err::<Felt252, HintError>(
            HintError::Internal(
                VirtualMachineError::ExpectedInteger(MaybeRelocatable::RelocatableValue(p)),
            ),
        ),
{
}

/// Dereference semantics: a dereferencing reference whose resolved address
/// holds a pointer reads exactly that pointer; a non-dereferencing
/// reference reads the resolved address itself, whatever memory holds.
pub proof fn lemma_dereference_semantics(
    mem: MemModel,
    hr: HintReference,
    a: Relocatable,
    p2: Relocatable,
)
    ensures
        hr.dereference && cell_at(mem, a) == Some(MaybeRelocatable::RelocatableValue(p2))
            ==> spec_ptr_at(mem, hr, a) == Ok::<Relocatable, HintError>(p2),
        !hr.dereference ==> spec_ptr_at(mem, hr, a) == Ok::<Relocatable, HintError>(a),
{
}

/// Immediate secondary offset: with a non-dereferencing primary expression
/// and a literal secondary offset, resolution is independent of memory
/// contents, and lands `k` cells past the primary address whenever both
/// offsets stay in machine range.
pub proof fn lemma_immediate_secondary_offset(
    hr: HintReference,
    reg: Register,
    off: i32,
    k: i32,
    mem1: MemModel,
    mem2: MemModel,
    ap: Relocatable,
    fp: Relocatable,
    cur: ApTracking,
)
    requires
        hr.offset1 == OffsetValue::Reference(reg, off, false),
        hr.offset2 == OffsetValue::Value(k),
    ensures
        spec_resolve_addr(hr, mem1, ap, fp, cur) == spec_resolve_addr(hr, mem2, ap, fp, cur),
        match spec_base_addr(reg, hr.ap_tracking_data, ap, fp, cur) {
            Some(b) => match spec_add_int(b, off as int) {
                Some(a) => spec_resolve_addr(hr, mem1, ap, fp, cur) == (match spec_add_int(
                    a,
                    k as int,
                ) {
                    Some(r) => Resolution::Address(r),
                    None => Resolution::Failure,
                }),
                None => spec_resolve_addr(hr, mem1, ap, fp, cur) == Resolution::Failure,
            },
            None => spec_resolve_addr(hr, mem1, ap, fp, cur) == Resolution::Failure,
        },
{
}

/// The drift correction applied to the allocation register: subtract from
/// its value the distance the register has advanced between the reference's
/// tracking context and the current one (a signed amount — an earlier
/// current context moves the register forward instead). `None` when the
/// groups differ or the corrected offset leaves the machine range.
pub fn apply_ap_tracking_correction(
    ap: &Relocatable,
    ref_ap_tracking: &ApTracking,
    hint_ap_tracking: &ApTracking,
) -> (r: Option<Relocatable>)
    ensures
        r == spec_ap_correction(*ap, *ref_ap_tracking, *hint_ap_tracking),
{
    if ref_ap_tracking.group != hint_ap_tracking.group {
        return None;
    }
    if hint_ap_tracking.offset >= ref_ap_tracking.offset {
        let drift = hint_ap_tracking.offset - ref_ap_tracking.offset;
        if drift <= ap.offset {
            Some(Relocatable { segment_index: ap.segment_index, offset: ap.offset - drift })
        } else {
            None
        }
    } else {
        let back = ref_ap_tracking.offset - hint_ap_tracking.offset;
        match ap.offset.checked_add(back) {
            Some(off) => Some(Relocatable { segment_index: ap.segment_index, offset: off }),
            None => None,
        }
    }
}

/// Evaluates one register-relative offset expression of `hint_reference`
/// against the machine state. Every absence — a non-register expression, a
/// missing tracking context, a group mismatch, an out-of-range address, a
/// never-written cell — is the one absence error.
pub(crate) fn get_offset_value_reference(
    vm: &VirtualMachine,
    hint_reference: &HintReference,
    hint_ap_tracking: &ApTracking,
    offset_value: &OffsetValue,
) -> (res: Result<MaybeRelocatable, HintError>)
    ensures
        match *offset_value {
            OffsetValue::Reference(reg, off, deref) => res == (match spec_offset_ref(
                vm.memory@,
                hint_reference.ap_tracking_data,
                spec_ap(*vm),
                spec_fp(*vm),
                *hint_ap_tracking,
                reg,
                off as int,
                deref,
            ) {
                Some(v) => Ok::<MaybeRelocatable, HintError>(v),
                None => Err::<MaybeRelocatable, HintError>(HintError::FailedToGetIds),
            }),
            _ => res == Err::<MaybeRelocatable, HintError>(HintError::FailedToGetIds),
        },
{
    let (register, offset, deref) = match offset_value {
        OffsetValue::Reference(register, offset, deref) => (register, *offset, *deref),
        _ => { return Err(HintError::FailedToGetIds) },
    };
    let base_addr = match register {
        Register::FP => vm.get_fp(),
        Register::AP => {
            match &hint_reference.ap_tracking_data {
                Some(ref_t) => {
                    let ap = vm.get_ap();
                    match apply_ap_tracking_correction(&ap, ref_t, hint_ap_tracking) {
                        Some(a) => a,
                        None => { return Err(HintError::FailedToGetIds) },
                    }
                },
                None => { return Err(HintError::FailedToGetIds) },
            }
        },
    };
    let addr = match base_addr.add_i32(offset) {
        Some(a) => a,
        None => { return Err(HintError::FailedToGetIds) },
    };
    if deref {
        match vm.get_maybe(&addr) {
            Some(v) => Ok(v),
            None => Err(HintError::FailedToGetIds),
        }
    } else {
        Ok(MaybeRelocatable::RelocatableValue(addr))
    }
}

/// Computes the concrete address a symbolic reference names, correcting the
/// allocation register's drift. Where the secondary offset is a
/// register-relative integer, the spec leaves the narrowed amount open: the
/// address is then only known to lie at or past the primary address in its
/// segment, and every failure of that step is the absence error.
pub fn compute_addr_from_reference(
    hint_reference: &HintReference,
    vm: &VirtualMachine,
    hint_ap_tracking: &ApTracking,
) -> (res: Result<Relocatable, HintError>)
    ensures
        match spec_resolve_addr(
            *hint_reference,
            vm.memory@,
            spec_ap(*vm),
            spec_fp(*vm),
            *hint_ap_tracking,
        ) {
            Resolution::Address(a) => res == Ok::<Relocatable, HintError>(a),
            Resolution::Failure => res == Err::<Relocatable, HintError>(HintError::FailedToGetIds),
            Resolution::IntOffset(base) => match res {
                Ok(r) => r.segment_index == base.segment_index && base.offset <= r.offset,
                Err(e) => e == HintError::FailedToGetIds,
            },
        },
{
    let base = match &hint_reference.offset1 {
        OffsetValue::Reference(_, _, _) => {
            match get_offset_value_reference(
                vm,
                hint_reference,
                hint_ap_tracking,
                &hint_reference.offset1,
            )? {
                MaybeRelocatable::RelocatableValue(r) => r,
                MaybeRelocatable::Int(_) => { return Err(HintError::FailedToGetIds) },
            }
        },
        _ => { return Err(HintError::FailedToGetIds) },
    };
    match &hint_reference.offset2 {
        OffsetValue::Value(value) => match base.add_i32(*value) {
            Some(r) => Ok(r),
            None => Err(HintError::FailedToGetIds),
        },
        OffsetValue::Reference(_, _, _) => {
            let value = get_offset_value_reference(
                vm,
                hint_reference,
                hint_ap_tracking,
                &hint_reference.offset2,
            )?;
            match value {
                MaybeRelocatable::Int(f) => match felt_to_usize(&f) {
                    Some(k) => match base.add_usize(k) {
                        Some(r) => Ok(r),
                        None => Err(HintError::FailedToGetIds),
                    },
                    None => Err(HintError::FailedToGetIds),
                },
                MaybeRelocatable::RelocatableValue(_) => Err(HintError::FailedToGetIds),
            }
        },
        OffsetValue::Immediate(_) => Err(HintError::FailedToGetIds),
    }
}

/// Fetches the integer a reference names: an immediate primary offset is
/// returned directly; otherwise the resolved cell must hold an integer.
pub fn get_integer_from_reference(
    vm: &VirtualMachine,
    hint_reference: &HintReference,
    hint_ap_tracking: &ApTracking,
) -> (res: Result<Felt252, HintError>)
    ensures
        hint_reference.offset1 matches OffsetValue::Immediate(f) ==> res == Ok::<
            Felt252,
            HintError,
        >(f),
        !(hint_reference.offset1 matches OffsetValue::Immediate(_)) ==> match spec_resolve_addr(
            *hint_reference,
            vm.memory@,
            spec_ap(*vm),
            spec_fp(*vm),
            *hint_ap_tracking,
        ) {
            Resolution::Address(a) => res == spec_integer_at(vm.memory@, a),
            Resolution::Failure => res == Err::<Felt252, HintError>(HintError::FailedToGetIds),
            Resolution::IntOffset(base) => match res {
                Ok(i) => exists|a: Relocatable|
                    #![auto]
                    a.segment_index == base.segment_index && base.offset <= a.offset && cell_at(
                        vm.memory@,
                        a,
                    ) == Some(MaybeRelocatable::Int(i)),
                Err(e) => e == HintError::FailedToGetIds || (exists|v: MaybeRelocatable|
                    #![auto]
                    e == HintError::Internal(VirtualMachineError::ExpectedInteger(v))),
            },
        },
{
    if let OffsetValue::Immediate(f) = &hint_reference.offset1 {
        return Ok(f.clone());
    }
    let var_addr = compute_addr_from_reference(hint_reference, vm, hint_ap_tracking)?;
    match vm.get_maybe(&var_addr) {
        Some(MaybeRelocatable::Int(i)) => Ok(i),
        Some(v) => Err(HintError::Internal(VirtualMachineError::ExpectedInteger(v))),
        None => Err(HintError::FailedToGetIds),
    }
}

/// Fetches the value a reference names without variant enforcement: an
/// immediate primary offset as an integer value; a dereferencing reference's
/// stored cell; a non-dereferencing reference's address as a value.
pub fn get_maybe_relocatable_from_reference(
    vm: &VirtualMachine,
    hint_reference: &HintReference,
    hint_ap_tracking: &ApTracking,
) -> (res: Result<MaybeRelocatable, HintError>)
    ensures
        hint_reference.offset1 matches OffsetValue::Immediate(f) ==> res == Ok::<
            MaybeRelocatable,
            HintError,
        >(MaybeRelocatable::Int(f)),
        !(hint_reference.offset1 matches OffsetValue::Immediate(_)) ==> match spec_resolve_addr(
            *hint_reference,
            vm.memory@,
            spec_ap(*vm),
            spec_fp(*vm),
            *hint_ap_tracking,
        ) {
            Resolution::Address(a) => res == spec_value_at(vm.memory@, *hint_reference, a),
            Resolution::Failure => res == Err::<MaybeRelocatable, HintError>(
                HintError::FailedToGetIds,
            ),
            Resolution::IntOffset(base) => match res {
                Ok(v) => hint_reference.dereference ==> exists|a: Relocatable|
                    #![auto]
                    a.segment_index == base.segment_index && base.offset <= a.offset && cell_at(
                        vm.memory@,
                        a,
                    ) == Some(v),
                Err(e) => e == HintError::FailedToGetIds,
            },
        },
{
    if let OffsetValue::Immediate(f) = &hint_reference.offset1 {
        return Ok(MaybeRelocatable::Int(f.clone()));
    }
    let var_addr = compute_addr_from_reference(hint_reference, vm, hint_ap_tracking)?;
    if hint_reference.dereference {
        match vm.get_maybe(&var_addr) {
            Some(v) => Ok(v),
            None => Err(HintError::FailedToGetIds),
        }
    } else {
        Ok(MaybeRelocatable::RelocatableValue(var_addr))
    }
}

} // verus!
