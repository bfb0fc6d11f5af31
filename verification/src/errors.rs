//! The closed error taxonomy shared by memory, resolver and accessors.
//! Every failure is a structured value carrying the data a caller needs to
//! match on; nothing is retried or translated away on the way up.

use crate::relocatable::MaybeRelocatable;
use vstd::prelude::*;
use vstd::string::StringExecFns;

verus! {

/// The decimal digit character for `d`, for `d < 10`.
pub open spec fn spec_digit(d: nat) -> char {
    if d == 0 {
        '0'
    } else if d == 1 {
        '1'
    } else if d == 2 {
        '2'
    } else if d == 3 {
        '3'
    } else if d == 4 {
        '4'
    } else if d == 5 {
        '5'
    } else if d == 6 {
        '6'
    } else if d == 7 {
        '7'
    } else if d == 8 {
        '8'
    } else {
        '9'
    }
}

/// The decimal digits of `n`, most significant first.
pub open spec fn spec_decimal(n: nat) -> Seq<char>
    decreases n,
{
    if n < 10 {
        seq![spec_digit(n)]
    } else {
        spec_decimal(n / 10).push(spec_digit(n % 10))
    }
}

/// Appends the decimal rendering of `n` to `s`.
fn append_decimal(s: &mut String, n: usize)
    ensures
        final(s)@ == old(s)@ + spec_decimal(n as nat),
    decreases n,
{
    let ghost pre = s@;
    if n >= 10 {
        append_decimal(s, n / 10);
    }
    let d = n % 10;
    let digit: &str = if d == 0 {
        "0"
    } else if d == 1 {
        "1"
    } else if d == 2 {
        "2"
    } else if d == 3 {
        "3"
    } else if d == 4 {
        "4"
    } else if d == 5 {
        "5"
    } else if d == 6 {
        "6"
    } else if d == 7 {
        "7"
    } else if d == 8 {
        "8"
    } else {
        "9"
    };
    proof {
        reveal_strlit("0");
        reveal_strlit("1");
        reveal_strlit("2");
        reveal_strlit("3");
        reveal_strlit("4");
        reveal_strlit("5");
        reveal_strlit("6");
        reveal_strlit("7");
        reveal_strlit("8");
        reveal_strlit("9");
        assert(digit@ =~= seq![spec_digit(d as nat)]);
    }
    s.append(digit);
    proof {
        assert(s@ =~= pre + spec_decimal(n as nat));
    }
}

/// A write failed at the memory layer.
#[derive(Debug, PartialEq, Eq)]
pub enum MemoryError {
    /// A write targeted a segment that does not yet exist: the payload is
    /// `(allocated_segment_count, accessed_segment_index)`.
    UnallocatedSegment(usize, usize),
}

/// The human-readable text of a memory error, derived from the structured
/// variant and never authoritative over it.
pub open spec fn spec_memory_error_message(e: MemoryError) -> Seq<char> {
    match e {
        MemoryError::UnallocatedSegment(len, accessed) => "Can't insert into segment #"@
            + spec_decimal(accessed as nat) + "; memory only has "@ + spec_decimal(len as nat)
            + " segment"@,
    }
}

impl MemoryError {
    /// Renders the error for a human reader; callers match on the variant,
    /// not on this text.
    pub fn message(&self) -> (r: String)
        ensures
            r@ == spec_memory_error_message(*self),
    {
        match self {
            MemoryError::UnallocatedSegment(len, accessed) => {
                let mut s = String::new();
                s.append("Can't insert into segment #");
                append_decimal(&mut s, *accessed);
                s.append("; memory only has ");
                append_decimal(&mut s, *len);
                s.append(" segment");
                proof {
                    assert(s@ =~= spec_memory_error_message(*self));
                }
                s
            },
        }
    }
}

/// A lower-level failure of the machine, wrapped unmodified by the accessors.
#[derive(Debug, PartialEq, Eq)]
pub enum VirtualMachineError {
    /// The cell exists but holds a pointer where an integer was required;
    /// the payload carries the stored value.
    ExpectedInteger(MaybeRelocatable),
    /// The cell exists but holds an integer where a pointer was required;
    /// the payload carries the stored value.
    ExpectedRelocatable(MaybeRelocatable),
    /// A memory-layer error, preserved as it was raised.
    MemoryError(MemoryError),
}

/// The failure of one accessor call. `FailedToGetIds` is the single absence
/// signal: the variable name is missing from the reference table, the
/// reference cannot be evaluated in the current context, or a cell it needs
/// was never written. `Internal` preserves a lower-level error unchanged.
#[derive(Debug, PartialEq, Eq)]
pub enum HintError {
    FailedToGetIds,
    Internal(VirtualMachineError),
}

} // verus!
