//! The machine state the accessors work against: the two addressing
//! registers and one mutable view of the segmented memory. Both registers
//! address the execution segment.

use crate::errors::{MemoryError, VirtualMachineError};
use crate::memory::{cell_at, mem_written, Memory};
use crate::relocatable::{MaybeRelocatable, Relocatable};
use vstd::prelude::*;

verus! {

/// The segment both registers point into during execution.
pub const EXECUTION_SEGMENT: usize = 1;

/// The two addressing registers: the allocation register `ap` and the frame
/// register `fp`, both offsets into the execution segment.
#[derive(Clone, Copy, PartialEq, Eq, Structural, Debug)]
pub struct RunContext {
    pub ap: usize,
    pub fp: usize,
}

/// One executing machine instance: register values and the memory they
/// address. All access is serialized through one mutable view at a time.
pub struct VirtualMachine {
    pub run_context: RunContext,
    pub memory: Memory,
}

/// The address the allocation register holds, as the specification sees it.
pub open spec fn spec_ap(vm: VirtualMachine) -> Relocatable {
    Relocatable { segment_index: EXECUTION_SEGMENT, offset: vm.run_context.ap }
}

/// The address the frame register holds, as the specification sees it.
pub open spec fn spec_fp(vm: VirtualMachine) -> Relocatable {
    Relocatable { segment_index: EXECUTION_SEGMENT, offset: vm.run_context.fp }
}

impl VirtualMachine {
    /// A fresh machine: both registers at offset zero, no segment allocated.
    pub fn new() -> (r: VirtualMachine)
        ensures
            r.run_context == (RunContext { ap: 0, fp: 0 }),
            r.memory@ == Seq::<Seq<Option<MaybeRelocatable>>>::empty(),
    {
        VirtualMachine { run_context: RunContext { ap: 0, fp: 0 }, memory: Memory::new() }
    }

    /// The address the allocation register holds.
    pub fn get_ap(&self) -> (r: Relocatable)
        ensures
            r == (Relocatable { segment_index: EXECUTION_SEGMENT, offset: self.run_context.ap }),
    {
        Relocatable { segment_index: EXECUTION_SEGMENT, offset: self.run_context.ap }
    }

    /// The address the frame register holds.
    pub fn get_fp(&self) -> (r: Relocatable)
        ensures
            r == (Relocatable { segment_index: EXECUTION_SEGMENT, offset: self.run_context.fp }),
    {
        Relocatable { segment_index: EXECUTION_SEGMENT, offset: self.run_context.fp }
    }

    /// Writes `value` at `key`, wrapping the memory layer's failure
    /// unmodified. Registers never move on a write.
    pub fn insert_value(&mut self, key: &Relocatable, value: MaybeRelocatable) -> (res: Result<
        (),
        VirtualMachineError,
    >)
        ensures
            final(self).run_context == old(self).run_context,
            match res {
                Ok(()) => {
                    &&& key.segment_index < old(self).memory@.len()
                    &&& final(self).memory@ == mem_written(old(self).memory@, *key, value)
                },
                Err(e) => {
                    &&& key.segment_index >= old(self).memory@.len()
                    &&& e == VirtualMachineError::MemoryError(
                        MemoryError::UnallocatedSegment(
                            old(self).memory@.len() as usize,
                            key.segment_index,
                        ),
                    )
                    &&& final(self).memory@ == old(self).memory@
                },
            },
    {
        match self.memory.insert(key, value) {
            Ok(()) => Ok(()),
            Err(e) => Err(VirtualMachineError::MemoryError(e)),
        }
    }

    /// Reads the cell at `key` without enforcing a variant; `None` for
    /// anything missing.
    pub fn get_maybe(&self, key: &Relocatable) -> (r: Option<MaybeRelocatable>)
        ensures
            r == cell_at(self.memory@, *key),
    {
        self.memory.get(key)
    }
}

} // verus!
