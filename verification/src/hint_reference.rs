//! Symbolic references and the reference table. A `HintReference` is the
//! compile-time description of a named variable's location relative to the
//! two registers; the table maps each variable name to its reference and is
//! immutable once program loading ends.

use cairo_felt::Felt252;
use vstd::prelude::*;

verus! {

/// The register a symbolic offset expression is based on.
#[derive(Clone, Copy, PartialEq, Eq, Structural, Debug)]
pub enum Register {
    AP,
    FP,
}

/// The tracking context recorded for the allocation register: which
/// control-flow group it was in and how far the register had advanced there.
/// The drift correction is computed from the gap between a reference's
/// context and the current one.
#[derive(Clone, Copy, PartialEq, Eq, Structural, Debug)]
pub struct ApTracking {
    pub group: usize,
    pub offset: usize,
}

impl ApTracking {
    pub fn new() -> (r: ApTracking)
        ensures
            r == (ApTracking { group: 0, offset: 0 }),
    {
        ApTracking { group: 0, offset: 0 }
    }
}

/// One offset expression of a symbolic reference: an immediate field
/// element, a literal cell count, or a register-relative expression
/// `register + offset`, optionally dereferenced.
#[derive(Debug, PartialEq, Eq)]
pub enum OffsetValue {
    Immediate(Felt252),
    Value(i32),
    Reference(Register, i32, bool),
}

impl Clone for OffsetValue {
    fn clone(&self) -> (r: Self)
        ensures
            r == *self,
    {
        match self {
            OffsetValue::Immediate(v) => OffsetValue::Immediate(v.clone()),
            OffsetValue::Value(v) => OffsetValue::Value(*v),
            OffsetValue::Reference(reg, off, deref) => OffsetValue::Reference(*reg, *off, *deref),
        }
    }
}

/// The compile-time description of where a named variable lives: a primary
/// offset expression, a secondary offset expression, a dereference flag for
/// the resolved address, and the tracking context the reference was compiled
/// under (needed only when the primary expression is allocation-register
/// based).
#[derive(Debug, PartialEq, Eq)]
pub struct HintReference {
    pub offset1: OffsetValue,
    pub offset2: OffsetValue,
    pub dereference: bool,
    pub ap_tracking_data: Option<ApTracking>,
}

impl Clone for HintReference {
    fn clone(&self) -> (r: Self)
        ensures
            r == *self,
    {
        HintReference {
            offset1: self.offset1.clone(),
            offset2: self.offset2.clone(),
            dereference: self.dereference,
            ap_tracking_data: self.ap_tracking_data,
        }
    }
}

impl HintReference {
    /// A frame-register reference `[fp + offset1] + offset2`, with the inner
    /// and outer dereference flags given explicitly.
    pub fn new(offset1: i32, offset2: i32, inner_dereference: bool, dereference: bool) -> (r:
        HintReference)
        ensures
            r == (HintReference {
                offset1: OffsetValue::Reference(Register::FP, offset1, inner_dereference),
                offset2: OffsetValue::Value(offset2),
                dereference,
                ap_tracking_data: None,
            }),
    {
        HintReference {
            offset1: OffsetValue::Reference(Register::FP, offset1, inner_dereference),
            offset2: OffsetValue::Value(offset2),
            dereference,
            ap_tracking_data: None,
        }
    }

    /// The common shape: the dereferenced cell at `fp + offset1`.
    pub fn new_simple(offset1: i32) -> (r: HintReference)
        ensures
            r == (HintReference {
                offset1: OffsetValue::Reference(Register::FP, offset1, false),
                offset2: OffsetValue::Value(0),
                dereference: true,
                ap_tracking_data: None,
            }),
    {
        HintReference {
            offset1: OffsetValue::Reference(Register::FP, offset1, false),
            offset2: OffsetValue::Value(0),
            dereference: true,
            ap_tracking_data: None,
        }
    }
}

/// First-match lookup in a sequence of named references.
spec fn seq_lookup(s: Seq<(String, HintReference)>, name: Seq<char>) -> Option<HintReference>
    decreases s.len(),
{
    if s.len() == 0 {
        None
    } else if s[0].0@ == name {
        Some(s[0].1)
    } else {
        seq_lookup(s.drop_first(), name)
    }
}

/// The immutable name-to-reference mapping produced during program loading.
/// Lookups are exact-name matches; its view is the map from name (as a
/// character sequence) to reference.
pub struct ReferenceTable {
    entries: Vec<(String, HintReference)>,
}

impl View for ReferenceTable {
    type V = Map<Seq<char>, HintReference>;

    closed spec fn view(&self) -> Map<Seq<char>, HintReference> {
        Map::new(
            |k: Seq<char>| seq_lookup(self.entries@, k) is Some,
            |k: Seq<char>| seq_lookup(self.entries@, k)->Some_0,
        )
    }
}

proof fn lemma_lookup_skip_step(s: Seq<(String, HintReference)>, i: int, name: Seq<char>)
    requires
        0 <= i < s.len(),
        s[i].0@ != name,
    ensures
        seq_lookup(s.skip(i), name) == seq_lookup(s.skip(i + 1), name),
{
    assert(s.skip(i).drop_first() =~= s.skip(i + 1));
}

/// Replacing the entry at the first index whose name is `p`'s name rebinds
/// that name and leaves every other name's binding unchanged.
proof fn lemma_lookup_update(s: Seq<(String, HintReference)>, i: int, p: (String, HintReference), k: Seq<char>)
    requires
        0 <= i < s.len(),
        forall|j: int| 0 <= j < i ==> s[j].0@ != p.0@,
        s[i].0@ == p.0@,
    ensures
        seq_lookup(s.update(i, p), k) == (if k == p.0@ {
            Some(p.1)
        } else {
            seq_lookup(s, k)
        }),
    decreases i,
{
    if i == 0 {
        assert(s.update(0, p).drop_first() =~= s.drop_first());
        if k != p.0@ {
            assert(seq_lookup(s.update(0, p), k) == seq_lookup(s.update(0, p).drop_first(), k));
        }
    } else {
        assert(s.update(i, p).drop_first() =~= s.drop_first().update(i - 1, p));
        assert(s.update(i, p)[0] == s[0]);
        assert(forall|j: int| 0 <= j < i - 1 ==> s.drop_first()[j].0@ != p.0@);
        lemma_lookup_update(s.drop_first(), i - 1, p, k);
    }
}

/// Appending an entry whose name is bound nowhere in `s` binds that name and
/// leaves every other name's binding unchanged.
proof fn lemma_lookup_push(s: Seq<(String, HintReference)>, p: (String, HintReference), k: Seq<char>)
    requires
        forall|j: int| 0 <= j < s.len() ==> s[j].0@ != p.0@,
    ensures
        seq_lookup(s.push(p), k) == (if k == p.0@ {
            Some(p.1)
        } else {
            seq_lookup(s, k)
        }),
    decreases s.len(),
{
    if s.len() == 0 {
        assert(s.push(p)[0] == p);
        assert(s.push(p).drop_first() =~= Seq::<(String, HintReference)>::empty());
        if k == p.0@ {
            assert(s.push(p)[0].0@ == k);
            assert(seq_lookup(s.push(p), k) == Some(p.1));
        } else {
            assert(seq_lookup(s.push(p), k) == seq_lookup(s.push(p).drop_first(), k));
            assert(seq_lookup(s, k) == None::<HintReference>);
        }
    } else {
        assert(s[0].0@ != p.0@);
        assert(s.push(p)[0] == s[0]);
        assert(s.push(p).drop_first() =~= s.drop_first().push(p));
        assert(forall|j: int|
            0 <= j < s.drop_first().len() ==> #[trigger] s.drop_first()[j].0@ == s[j + 1].0@);
        lemma_lookup_push(s.drop_first(), p, k);
        if k == s[0].0@ {
            assert(seq_lookup(s.push(p), k) == Some(s[0].1));
            assert(seq_lookup(s, k) == Some(s[0].1));
        } else {
            assert(seq_lookup(s.push(p), k) == seq_lookup(s.drop_first().push(p), k));
            assert(seq_lookup(s, k) == seq_lookup(s.drop_first(), k));
        }
    }
}

impl ReferenceTable {
    /// An empty table: no name is bound.
    pub fn new() -> (r: ReferenceTable)
        ensures
            r@ == Map::<Seq<char>, HintReference>::empty(),
    {
        let r = ReferenceTable { entries: Vec::new() };
        proof {
            assert(r@ =~= Map::<Seq<char>, HintReference>::empty());
        }
        r
    }

    /// Binds `name` to `reference`, replacing any previous binding of the
    /// same name and touching no other.
    pub fn insert(&mut self, name: &str, reference: HintReference)
        ensures
            final(self)@ == old(self)@.insert(name@, reference),
    {
        let key: String = name.to_owned();
        let n = self.entries.len();
        let mut i: usize = 0;
        while i < n
            invariant
                n == self.entries@.len(),
                i <= n,
                forall|j: int| 0 <= j < i ==> self.entries@[j].0@ != name@,
                key@ == name@,
                *self == *old(self),
            decreases n - i,
        {
            if self.entries[i].0 == key {
                let ghost s0 = self.entries@;
                let ghost p = (key, reference);
                self.entries[i] = (key, reference);
                proof {
                    assert(self.entries@ == s0.update(i as int, p));
                    assert forall|k: Seq<char>|
                        seq_lookup(self.entries@, k) == (if k == name@ {
                            Some(reference)
                        } else {
                            seq_lookup(s0, k)
                        }) by {
                        lemma_lookup_update(s0, i as int, p, k);
                    }
                    assert(self@ =~= old(self)@.insert(name@, reference));
                }
                return;
            }
            i += 1;
        }
        let ghost s0 = self.entries@;
        let ghost p = (key, reference);
        self.entries.push((key, reference));
        proof {
            assert(self.entries@ == s0.push(p));
            assert forall|k: Seq<char>|
                seq_lookup(self.entries@, k) == (if k == name@ {
                    Some(reference)
                } else {
                    seq_lookup(s0, k)
                }) by {
                lemma_lookup_push(s0, p, k);
            }
            assert(self@ =~= old(self)@.insert(name@, reference));
        }
    }

    /// Looks `name` up: the bound reference, or `None` where the name is
    /// absent.
    pub fn get<'a>(&'a self, name: &str) -> (r: Option<&'a HintReference>)
        ensures
            match r {
                Some(hr) => self@.contains_key(name@) && *hr == self@[name@],
                None => !self@.contains_key(name@),
            },
    {
        let key: String = name.to_owned();
        let n = self.entries.len();
        let mut i: usize = 0;
        proof {
            assert(self.entries@.skip(0) =~= self.entries@);
        }
        while i < n
            invariant
                n == self.entries@.len(),
                i <= n,
                key@ == name@,
                seq_lookup(self.entries@, name@) == seq_lookup(self.entries@.skip(i as int), name@),
            decreases n - i,
        {
            if self.entries[i].0 == key {
                proof {
                    assert(self.entries@.skip(i as int)[0] == self.entries@[i as int]);
                }
                return Some(&self.entries[i].1);
            }
            proof {
                assert(self.entries@.skip(i as int)[0] == self.entries@[i as int]);
                lemma_lookup_skip_step(self.entries@, i as int, name@);
            }
            i += 1;
        }
        proof {
            assert(self.entries@.skip(n as int) =~= Seq::<(String, HintReference)>::empty());
        }
        None
    }
}

} // verus!
