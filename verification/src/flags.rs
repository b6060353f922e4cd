//! Option flags of the engine, as a set held in a bit mask.
//!
//! The masks are those of release 4.8 of the engine, the one whose status
//! codes the error module lists. Several flags share a bit: which of them a
//! bit means depends on the call that it is handed to.
use vstd::prelude::*;

verus! {

/// No flag.
pub const DB_NONE: u32 = 0x0000_0000;

/// Create what does not exist yet.
pub const DB_CREATE: u32 = 0x0000_0001;

/// Run recovery when the environment is opened.
pub const DB_RECOVER: u32 = 0x0000_0002;

/// Open the handle for use by several threads.
pub const DB_THREAD: u32 = 0x0000_0010;

/// Store the pair only if the key is absent.
pub const DB_NOOVERWRITE: u32 = 0x0000_0014;

/// Enable the locking subsystem.
pub const DB_INIT_LOCK: u32 = 0x0000_0080;

/// Enable the logging subsystem.
pub const DB_INIT_LOG: u32 = 0x0000_0100;

/// Enable the shared memory pool.
pub const DB_INIT_MPOOL: u32 = 0x0000_0200;

/// Enable the transaction subsystem.
pub const DB_INIT_TXN: u32 = 0x0000_0800;

/// Read what other transactions have not committed yet.
pub const DB_READ_UNCOMMITTED: u32 = 0x0000_0200;

/// Do not flush the log when the transaction commits.
pub const DB_TXN_NOSYNC: u32 = 0x0000_0001;

/// Flush the log when the transaction commits.
pub const DB_TXN_SYNC: u32 = 0x0000_0004;

/// Every bit that stands for a flag above.
pub const ALL_BITS: u32 = 0x0000_0b97;

/// `bits` holds no bit but those of the flags above.
pub open spec fn known(bits: u32) -> bool {
    bits & !ALL_BITS == 0
}

/// A set of option flags. It never holds a bit outside `ALL_BITS`.
#[derive(Clone, Copy, Debug, PartialEq, Eq)]
pub struct Flags {
    bits: u32,
}

impl View for Flags {
    type V = u32;

    /// The mask that the engine is handed.
    closed spec fn view(&self) -> u32 {
        self.bits
    }
}

impl Flags {
    #[verifier::type_invariant]
    spec fn only_known_bits(self) -> bool {
        known(self.bits)
    }

    /// The empty set.
    pub fn empty() -> (f: Flags)
        ensures
            f@ == 0,
    {
        assert(known(0)) by (bit_vector);
        Flags { bits: 0 }
    }

    /// The set of all flags.
    pub fn all() -> (f: Flags)
        ensures
            f@ == ALL_BITS,
    {
        assert(known(ALL_BITS)) by (bit_vector);
        Flags { bits: ALL_BITS }
    }

    /// The mask of this set.
    pub fn bits(&self) -> (bits: u32)
        ensures
            bits == self@,
            known(bits),
    {
        proof {
            use_type_invariant(self);
        }
        self.bits
    }

    /// The set with the mask `bits`, unless `bits` holds a bit that stands
    /// for no flag.
    pub fn from_bits(bits: u32) -> (r: Option<Flags>)
        ensures
            known(bits) ==> (r matches Some(f) && f@ == bits),
            !known(bits) ==> r is None,
    {
        if bits & !ALL_BITS == 0 {
            Some(Flags { bits })
        } else {
            None
        }
    }

    /// The set with the mask `bits`, without the bits that stand for no flag.
    pub fn from_bits_truncate(bits: u32) -> (f: Flags)
        ensures
            f@ == bits & ALL_BITS,
    {
        assert(known(bits & ALL_BITS)) by (bit_vector);
        Flags { bits: bits & ALL_BITS }
    }

    /// Whether the set is empty.
    pub fn is_empty(&self) -> (b: bool)
        ensures
            b == (self@ == 0),
    {
        self.bits == 0
    }

    /// Whether every flag of `other` is in this set.
    pub fn contains(&self, other: Flags) -> (b: bool)
        ensures
            b == (self@ & other@ == other@),
    {
        self.bits & other.bits == other.bits
    }

    /// The set that `union` and `|` give.
    pub closed spec fn spec_union(self, other: Flags) -> Flags {
        Flags { bits: self.bits | other.bits }
    }

    /// The mask of a union holds the bits of both masks.
    pub proof fn lemma_union_mask(self, other: Flags)
        ensures
            self.spec_union(other)@ == self@ | other@,
    {
    }

    /// The flags that are in either set.
    pub fn union(self, other: Flags) -> (f: Flags)
        ensures
            f == self.spec_union(other),
            f@ == self@ | other@,
    {
        proof {
            use_type_invariant(self);
            use_type_invariant(other);
        }
        let a: u32 = self.bits;
        let b: u32 = other.bits;
        assert(known(a | b)) by (bit_vector)
            requires
                known(a),
                known(b),
        ;
        Flags { bits: a | b }
    }

    /// The flags that are in both sets.
    pub fn intersection(self, other: Flags) -> (f: Flags)
        ensures
            f@ == self@ & other@,
    {
        proof {
            use_type_invariant(self);
        }
        let a: u32 = self.bits;
        let b: u32 = other.bits;
        assert(known(a & b)) by (bit_vector)
            requires
                known(a),
        ;
        Flags { bits: a & b }
    }

    /// The flags of this set that are not in `other`.
    pub fn difference(self, other: Flags) -> (f: Flags)
        ensures
            f@ == self@ & !other@,
    {
        proof {
            use_type_invariant(self);
        }
        let a: u32 = self.bits;
        let b: u32 = other.bits;
        assert(known(a & !b)) by (bit_vector)
            requires
                known(a),
        ;
        Flags { bits: a & !b }
    }
}

impl core::ops::BitOr for Flags {
    type Output = Flags;

    /// The flags that are in either set.
    fn bitor(self, other: Flags) -> (f: Flags) {
        self.union(other)
    }
}

impl vstd::std_specs::ops::BitOrSpecImpl for Flags {
    open spec fn obeys_bitor_spec() -> bool {
        true
    }

    open spec fn bitor_req(self, other: Flags) -> bool {
        true
    }

    open spec fn bitor_spec(self, other: Flags) -> Flags {
        self.spec_union(other)
    }
}

} // verus!
