//! Addresses and cell values: a `Relocatable` is a segment-relative address,
//! a `MaybeRelocatable` is the tagged value one memory cell can hold.

use cairo_felt::Felt252;
use vstd::prelude::*;

verus! {

/// A segment-relative address `(segment_index, offset)`, not yet flattened
/// into one linear address space.
#[derive(Clone, Copy, PartialEq, Eq, Structural, Debug, Hash)]
pub struct Relocatable {
    pub segment_index: usize,
    pub offset: usize,
}

/// The value one memory cell can hold: a field-element integer or a pointer
/// into the segmented memory — exactly one variant at a time.
#[derive(Debug, PartialEq, Eq)]
pub enum MaybeRelocatable {
    Int(Felt252),
    RelocatableValue(Relocatable),
}

impl Clone for MaybeRelocatable {
    fn clone(&self) -> (r: Self)
        ensures
            r == *self,
    {
        match self {
            MaybeRelocatable::Int(v) => MaybeRelocatable::Int(v.clone()),
            MaybeRelocatable::RelocatableValue(a) => MaybeRelocatable::RelocatableValue(*a),
        }
    }
}

impl Relocatable {
    /// The address `offset` cells further into the same segment, or `None`
    /// where that offset does not fit in a machine integer.
    pub fn add_usize(&self, rhs: usize) -> (r: Option<Relocatable>)
        ensures
            r == spec_add_int(*self, rhs as int),
    {
        match self.offset.checked_add(rhs) {
            Some(off) => Some(Relocatable { segment_index: self.segment_index, offset: off }),
            None => None,
        }
    }

    /// The address `rhs` cells away in the same segment, where `rhs` may be
    /// negative; `None` where the result would leave `[0, usize::MAX]`.
    pub fn add_i32(&self, rhs: i32) -> (r: Option<Relocatable>)
        ensures
            r == spec_add_int(*self, rhs as int),
    {
        if rhs >= 0 {
            self.add_usize(rhs as usize)
        } else {
            let back = (-(rhs as i64)) as usize;
            if back <= self.offset {
                Some(Relocatable { segment_index: self.segment_index, offset: self.offset - back })
            } else {
                None
            }
        }
    }

    /// The distance from `other` to `self`, defined only within one segment
    /// and when `self` is not before `other`.
    pub fn sub(&self, other: &Relocatable) -> (r: Option<usize>)
        ensures
            r == (if self.segment_index == other.segment_index && other.offset <= self.offset {
                Some((self.offset - other.offset) as usize)
            } else {
                None::<usize>
            }),
    {
        if self.segment_index == other.segment_index && other.offset <= self.offset {
            Some(self.offset - other.offset)
        } else {
            None
        }
    }
}

/// Integer-offset address arithmetic: the same segment, the offset moved by
/// `off`, defined only while the result fits a machine integer.
pub open spec fn spec_add_int(a: Relocatable, off: int) -> Option<Relocatable> {
    if 0 <= a.offset + off <= usize::MAX {
        Some(Relocatable { segment_index: a.segment_index, offset: (a.offset + off) as usize })
    } else {
        None
    }
}

} // verus!
