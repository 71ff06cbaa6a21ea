//! Per-cell flag sets backed by `bitvec::vec::BitVec`.
use vstd::prelude::*;
use bitvec::vec::BitVec;

verus! {

/// A fixed-length set of per-cell flags, one bit per cell in row-major order.
#[verifier::external_body]
pub struct FlagSet {
    bits: BitVec,
}

/// The flags held by a flag set, in index order.
pub uninterp spec fn flags_of(v: FlagSet) -> Seq<bool>;

impl FlagSet {
    /// Relies on `BitVec::repeat`: `len` bits, each equal to `bit`. It panics
    /// beyond `usize::MAX >> 3` bits.
    #[verifier::external_body]
    pub(crate) fn repeat(bit: bool, len: usize) -> (r: FlagSet)
        requires
            len <= usize::MAX / 8,
        ensures
            flags_of(r) == Seq::new(len as nat, |_i: int| bit),
    {
        FlagSet { bits: BitVec::repeat(bit, len) }
    }

    /// Relies on indexing a `BitSlice` by `usize`: the bit at `index`.
    #[verifier::external_body]
    pub(crate) fn get(&self, index: usize) -> (r: bool)
        requires
            index < flags_of(*self).len(),
        ensures
            r == flags_of(*self)[index as int],
    {
        self.bits[index]
    }

    /// Relies on `BitSlice::set`: writes the bit at `index`, leaves the others.
    #[verifier::external_body]
    pub(crate) fn set(&mut self, index: usize, value: bool)
        requires
            index < flags_of(*old(self)).len(),
        ensures
            flags_of(*final(self)) == flags_of(*old(self)).update(index as int, value),
    {
        self.bits.set(index, value)
    }
}

impl FlagSet {
    /// A set of `len` flags, all clear.
    pub fn new(len: usize) -> (r: FlagSet)
        requires
            len <= usize::MAX / 8,
        ensures
            flags_of(r) == Seq::new(len as nat, |_i: int| false),
    {
        FlagSet::repeat(false, len)
    }

    /// Whether flag `index` is set.
    pub fn is_set(&self, index: usize) -> (r: bool)
        requires
            index < flags_of(*self).len(),
        ensures
            r == flags_of(*self)[index as int],
    {
        self.get(index)
    }
}

} // verus!
