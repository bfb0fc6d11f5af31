//! Segmented memory: a dense arena of independently growable segments of
//! optional cells, indexed by `(segment_index, offset)`. Segments are created
//! only by explicit allocation and only grow; a write to a segment that does
//! not exist fails, while a read of anything missing — unallocated segment,
//! out-of-range offset or never-written cell — is one absence signal.

use crate::errors::MemoryError;
use crate::relocatable::{MaybeRelocatable, Relocatable};
use vstd::prelude::*;

verus! {

/// The model of one segment: a cell per offset, `None` for a hole.
pub type SegModel = Seq<Option<MaybeRelocatable>>;

/// The model of the whole memory: one sequence of cells per segment index.
pub type MemModel = Seq<Seq<Option<MaybeRelocatable>>>;

/// The cell the model holds at `a`: `None` for an unallocated segment, an
/// offset past the segment's end, or a hole. Reads do not distinguish the
/// three; only writes report the unallocated segment.
pub open spec fn cell_at(m: MemModel, a: Relocatable) -> Option<MaybeRelocatable> {
    if a.segment_index < m.len() && a.offset < m[a.segment_index as int].len() {
        m[a.segment_index as int][a.offset as int]
    } else {
        None
    }
}

/// One segment after a write at `off`: in range the cell is overwritten;
/// past the end the segment grows, filling the gap with holes.
pub open spec fn seg_written(s: SegModel, off: int, v: MaybeRelocatable) -> SegModel {
    if off < s.len() {
        s.update(off, Some(v))
    } else {
        s + Seq::new((off - s.len()) as nat, |i: int| None) + seq![Some(v)]
    }
}

/// The whole memory after a successful write at `a`.
pub open spec fn mem_written(m: MemModel, a: Relocatable, v: MaybeRelocatable) -> MemModel {
    m.update(a.segment_index as int, seg_written(m[a.segment_index as int], a.offset as int, v))
}

/// Round trip: a value written to an address in an allocated segment is
/// exactly what a raw read of that address then yields.
pub proof fn lemma_write_then_read_raw(m: MemModel, a: Relocatable, v: MaybeRelocatable)
    requires
        a.segment_index < m.len(),
    ensures
        cell_at(mem_written(m, a, v), a) == Some(v),
{
    let s = m[a.segment_index as int];
    let s2 = seg_written(s, a.offset as int, v);
    if a.offset >= s.len() {
        let padded = s + Seq::new((a.offset - s.len()) as nat, |i: int| None::<MaybeRelocatable>);
        assert(padded.len() == a.offset);
        assert(s2[a.offset as int] == seq![Some(v)][0]);
    }
}

/// A write touches exactly one cell: every other address — in the written
/// segment or any other — reads afterwards what it read before.
pub proof fn lemma_write_frames_others(
    m: MemModel,
    a: Relocatable,
    v: MaybeRelocatable,
    b: Relocatable,
)
    requires
        a.segment_index < m.len(),
        b != a,
    ensures
        cell_at(mem_written(m, a, v), b) == cell_at(m, b),
{
    let m2 = mem_written(m, a, v);
    let s = m[a.segment_index as int];
    let s2 = seg_written(s, a.offset as int, v);
    if b.segment_index == a.segment_index {
        if a.offset < s.len() {
            assert(s2 == s.update(a.offset as int, Some(v)));
        } else {
            let padded = s + Seq::new((a.offset - s.len()) as nat, |i: int| None::<
                MaybeRelocatable,
            >);
            assert(s2.len() == a.offset + 1);
            if b.offset < s.len() {
                assert(s2[b.offset as int] == padded[b.offset as int]);
                assert(padded[b.offset as int] == s[b.offset as int]);
            } else if b.offset < a.offset {
                assert(s2[b.offset as int] == padded[b.offset as int]);
                assert(padded[b.offset as int] == None::<MaybeRelocatable>);
            }
        }
    }
}

/// A write never removes or shrinks a segment: the segment count stays, and
/// every segment is at least as long afterwards.
pub proof fn lemma_write_grows_monotonically(m: MemModel, a: Relocatable, v: MaybeRelocatable)
    requires
        a.segment_index < m.len(),
    ensures
        mem_written(m, a, v).len() == m.len(),
        forall|i: int|
            0 <= i < m.len() ==> m[i].len() <= #[trigger] mem_written(m, a, v)[i].len(),
{
}

/// The segmented memory itself. Its view is `MemModel`.
pub struct Memory {
    data: Vec<Vec<Option<MaybeRelocatable>>>,
}

impl View for Memory {
    type V = MemModel;

    closed spec fn view(&self) -> MemModel {
        self.data@.map_values(|s: Vec<Option<MaybeRelocatable>>| s@)
    }
}

impl Memory {
    /// An empty memory: no segment is allocated yet.
    pub fn new() -> (r: Memory)
        ensures
            r@ == Seq::<SegModel>::empty(),
    {
        let r = Memory { data: Vec::new() };
        proof {
            assert(r@ =~= Seq::<SegModel>::empty());
        }
        r
    }

    /// How many segments have been allocated.
    pub fn num_segments(&self) -> (r: usize)
        ensures
            r == self@.len(),
    {
        self.data.len()
    }

    /// Allocates the next segment, empty, and returns its index. This is the
    /// only way the segment count grows.
    pub fn add_segment(&mut self) -> (r: usize)
        ensures
            final(self)@ == old(self)@.push(Seq::<Option<MaybeRelocatable>>::empty()),
            r == old(self)@.len(),
    {
        let idx = self.data.len();
        self.data.push(Vec::new());
        proof {
            assert(self@ =~= old(self)@.push(Seq::<Option<MaybeRelocatable>>::empty()));
        }
        idx
    }

    /// Writes `value` at `key`. Fails, leaving the memory unchanged, exactly
    /// when the target segment was never allocated; otherwise the segment is
    /// extended as needed (holes filling any gap) and the cell is set,
    /// overwriting any prior content.
    pub fn insert(&mut self, key: &Relocatable, value: MaybeRelocatable) -> (res: Result<
        (),
        MemoryError,
    >)
        ensures
            match res {
                Ok(()) => {
                    &&& key.segment_index < old(self)@.len()
                    &&& final(self)@ == mem_written(old(self)@, *key, value)
                },
                Err(e) => {
                    &&& key.segment_index >= old(self)@.len()
                    &&& e == MemoryError::UnallocatedSegment(
                        old(self)@.len() as usize,
                        key.segment_index,
                    )
                    &&& final(self)@ == old(self)@
                },
            },
    {
        let len = self.data.len();
        if key.segment_index >= len {
            return Err(MemoryError::UnallocatedSegment(len, key.segment_index));
        }
        let ghost m0 = self@;
        let ghost s0 = self.data@[key.segment_index as int]@;
        let seg = &mut self.data[key.segment_index];
        if key.offset < seg.len() {
            seg[key.offset] = Some(value);
        } else {
            while seg.len() < key.offset
                invariant
                    s0.len() <= seg@.len() <= key.offset,
                    seg@ == s0 + Seq::new((seg@.len() - s0.len()) as nat, |i: int| None::<
                        MaybeRelocatable,
                    >),
                decreases key.offset - seg.len(),
            {
                seg.push(None);
                proof {
                    assert(seg@ =~= s0 + Seq::new((seg@.len() - s0.len()) as nat, |i: int| None::<
                        MaybeRelocatable,
                    >));
                }
            }
            seg.push(Some(value));
            proof {
                assert(seg@ =~= seg_written(s0, key.offset as int, value));
            }
        }
        proof {
            assert(self@ =~= mem_written(m0, *key, value));
        }
        Ok(())
    }

    /// Reads the cell at `key`: the stored value, or `None` for anything
    /// missing. Reading never changes the memory.
    pub fn get(&self, key: &Relocatable) -> (r: Option<MaybeRelocatable>)
        ensures
            r == cell_at(self@, *key),
    {
        if key.segment_index < self.data.len() {
            let seg = &self.data[key.segment_index];
            if key.offset < seg.len() {
                match &seg[key.offset] {
                    Some(v) => Some(v.clone()),
                    None => None,
                }
            } else {
                None
            }
        } else {
            None
        }
    }
}

} // verus!
