use vstd::prelude::*;

verus! {

/// Bit that allows making a directory.
pub const MK_DIR_BIT: u32 = 0b0000_0001;
/// Bit that allows removing a directory.
pub const RM_DIR_BIT: u32 = 0b0000_0010;
/// Bit that allows downloading a file.
pub const GET_BIT: u32 = 0b0000_0100;
/// Bit that allows uploading a file.
pub const PUT_BIT: u32 = 0b0000_1000;
/// Bit that allows deleting a file.
pub const DEL_BIT: u32 = 0b0001_0000;
/// Bit that allows renaming a file or a directory.
pub const RENAME_BIT: u32 = 0b0010_0000;
/// Bit that allows computing the checksum of a file.
pub const MD5_BIT: u32 = 0b0100_0000;
/// Bit that allows listing the contents of a directory.
pub const LIST_BIT: u32 = 0b1000_0000;
/// The bits of every operation that writes: make and remove a directory,
/// upload, delete and rename.
pub const WRITE_OPS_BITS: u32 = MK_DIR_BIT | RM_DIR_BIT | PUT_BIT | DEL_BIT | RENAME_BIT;
/// Every bit that names an operation.
pub const ALL_BITS: u32 = 0b1111_1111;

/// The operations that can be enabled or disabled for a user: a set of the
/// eight operation bits, copied by value.
#[derive(Clone, Copy, Debug, PartialEq, Eq, Structural, PartialOrd, Ord, Hash)]
pub struct VfsOperations {
    bits: u32,
}

/// `a` holds every bit of `b`.
pub open spec fn bits_contain(a: u32, b: u32) -> bool {
    a & b == b
}

impl VfsOperations {
    /// The bits of the set.
    pub closed spec fn spec_bits(self) -> u32 {
        self.bits
    }

    /// A set holds no bit beyond those that name an operation.
    pub open spec fn wf(self) -> bool {
        self.spec_bits() <= ALL_BITS
    }

    /// Every bit of `other` is in `self`.
    pub open spec fn spec_contains(self, other: VfsOperations) -> bool {
        bits_contain(self.spec_bits(), other.spec_bits())
    }

    /// The set of the bits in either set.
    pub closed spec fn spec_union(self, other: VfsOperations) -> VfsOperations {
        VfsOperations { bits: self.bits | other.bits }
    }

    /// The set that grants nothing.
    pub closed spec fn spec_empty() -> VfsOperations {
        VfsOperations { bits: 0 }
    }

    /// The bits of the set.
    pub fn bits(&self) -> (r: u32)
        ensures
            r == self.spec_bits(),
    {
        self.bits
    }

    /// The set with the given bits, where each of them names an operation.
    pub fn from_bits(bits: u32) -> (r: Option<VfsOperations>)
        ensures
            r is Some <==> bits <= ALL_BITS,
            r matches Some(s) ==> s.spec_bits() == bits,
    {
        if bits <= ALL_BITS {
            Some(VfsOperations { bits })
        } else {
            None
        }
    }

    /// The set of those of the given bits that name an operation.
    pub fn from_bits_truncate(bits: u32) -> (r: VfsOperations)
        ensures
            r.spec_bits() == bits & ALL_BITS,
            r.wf(),
    {
        assert(bits & ALL_BITS <= ALL_BITS) by (bit_vector);
        VfsOperations { bits: bits & ALL_BITS }
    }

    /// The set that grants nothing.
    pub fn empty() -> (r: VfsOperations)
        ensures
            r == VfsOperations::spec_empty(),
            r.spec_bits() == 0,
            r.wf(),
    {
        VfsOperations { bits: 0 }
    }

    /// The set that grants every operation.
    pub fn all() -> (r: VfsOperations)
        ensures
            r.spec_bits() == ALL_BITS,
            r.wf(),
    {
        VfsOperations { bits: ALL_BITS }
    }

    /// Allows making a directory.
    pub fn mk_dir() -> (r: VfsOperations)
        ensures
            r.spec_bits() == MK_DIR_BIT,
            r.wf(),
    {
        VfsOperations { bits: MK_DIR_BIT }
    }

    /// Allows removing a directory.
    pub fn rm_dir() -> (r: VfsOperations)
        ensures
            r.spec_bits() == RM_DIR_BIT,
            r.wf(),
    {
        VfsOperations { bits: RM_DIR_BIT }
    }

    /// Allows downloading a file.
    pub fn get() -> (r: VfsOperations)
        ensures
            r.spec_bits() == GET_BIT,
            r.wf(),
    {
        VfsOperations { bits: GET_BIT }
    }

    /// Allows uploading a file.
    pub fn put() -> (r: VfsOperations)
        ensures
            r.spec_bits() == PUT_BIT,
            r.wf(),
    {
        VfsOperations { bits: PUT_BIT }
    }

    /// Allows deleting a file.
    pub fn del() -> (r: VfsOperations)
        ensures
            r.spec_bits() == DEL_BIT,
            r.wf(),
    {
        VfsOperations { bits: DEL_BIT }
    }

    /// Allows renaming a file or a directory.
    pub fn rename() -> (r: VfsOperations)
        ensures
            r.spec_bits() == RENAME_BIT,
            r.wf(),
    {
        VfsOperations { bits: RENAME_BIT }
    }

    /// Allows computing the checksum of a file.
    pub fn md5() -> (r: VfsOperations)
        ensures
            r.spec_bits() == MD5_BIT,
            r.wf(),
    {
        VfsOperations { bits: MD5_BIT }
    }

    /// Allows listing the contents of a directory.
    pub fn list() -> (r: VfsOperations)
        ensures
            r.spec_bits() == LIST_BIT,
            r.wf(),
    {
        VfsOperations { bits: LIST_BIT }
    }

    /// Every operation that writes: make and remove a directory, upload,
    /// delete and rename.
    pub fn write_ops() -> (r: VfsOperations)
        ensures
            r.spec_bits() == WRITE_OPS_BITS,
            r.wf(),
    {
        assert(WRITE_OPS_BITS == 0b0011_1011) by (bit_vector);
        VfsOperations { bits: WRITE_OPS_BITS }
    }

    /// Every bit of `other` is in `self`.
    pub fn contains(&self, other: VfsOperations) -> (r: bool)
        ensures
            r == self.spec_contains(other),
    {
        self.bits & other.bits == other.bits
    }

    /// Some bit is in both sets.
    pub fn intersects(&self, other: VfsOperations) -> (r: bool)
        ensures
            r == (self.spec_bits() & other.spec_bits() != 0),
    {
        self.bits & other.bits != 0
    }

    /// No bit is in the set.
    pub fn is_empty(&self) -> (r: bool)
        ensures
            r == (self.spec_bits() == 0),
    {
        self.bits == 0
    }

    /// Every operation bit is in the set.
    pub fn is_all(&self) -> (r: bool)
        ensures
            r == bits_contain(self.spec_bits(), ALL_BITS),
    {
        self.bits & ALL_BITS == ALL_BITS
    }

    /// The bits that are in either set.
    pub fn union(self, other: VfsOperations) -> (r: VfsOperations)
        ensures
            r == self.spec_union(other),
            r.spec_bits() == self.spec_bits() | other.spec_bits(),
            self.wf() && other.wf() ==> r.wf(),
    {
        let a = self.bits;
        let b = other.bits;
        assert(a <= ALL_BITS && b <= ALL_BITS ==> a | b <= ALL_BITS) by (bit_vector);
        VfsOperations { bits: a | b }
    }

    /// The bits that are in both sets.
    pub fn intersection(self, other: VfsOperations) -> (r: VfsOperations)
        ensures
            r.spec_bits() == self.spec_bits() & other.spec_bits(),
            self.wf() ==> r.wf(),
    {
        let a = self.bits;
        let b = other.bits;
        assert(a & b <= a) by (bit_vector);
        VfsOperations { bits: a & b }
    }

    /// The bits of `self` that are not in `other`.
    pub fn difference(self, other: VfsOperations) -> (r: VfsOperations)
        ensures
            r.spec_bits() == self.spec_bits() & !other.spec_bits(),
            self.wf() ==> r.wf(),
    {
        let a = self.bits;
        let b = other.bits;
        assert(a & !b <= a) by (bit_vector);
        VfsOperations { bits: a & !b }
    }

    /// The operation bits that are not in the set.
    pub fn complement(self) -> (r: VfsOperations)
        ensures
            r.spec_bits() == !self.spec_bits() & ALL_BITS,
            r.wf(),
    {
        let a = self.bits;
        assert(!a & ALL_BITS <= ALL_BITS) by (bit_vector);
        VfsOperations { bits: !a & ALL_BITS }
    }

    /// Adds the bits of `other` to the set.
    pub fn insert(&mut self, other: VfsOperations)
        ensures
            final(self).spec_bits() == old(self).spec_bits() | other.spec_bits(),
            old(self).wf() && other.wf() ==> final(self).wf(),
    {
        *self = self.union(other);
    }

    /// Takes the bits of `other` out of the set.
    pub fn remove(&mut self, other: VfsOperations)
        ensures
            final(self).spec_bits() == old(self).spec_bits() & !other.spec_bits(),
            old(self).wf() ==> final(self).wf(),
    {
        *self = self.difference(other);
    }
}

/// A union holds each of its operands: `contains(a ∪ b, a)` and
/// `contains(a ∪ b, b)`.
pub proof fn lemma_union_contains_operands(a: VfsOperations, b: VfsOperations)
    ensures
        a.spec_union(b).spec_contains(a),
        a.spec_union(b).spec_contains(b),
        a.spec_union(b).spec_bits() == a.spec_bits() | b.spec_bits(),
{
    let x = a.spec_bits();
    let y = b.spec_bits();
    assert((x | y) & x == x && (x | y) & y == y) by (bit_vector);
}

/// The empty set contains no non-empty set of operations.
pub proof fn lemma_empty_contains_no_flag(flag: VfsOperations)
    requires
        flag.spec_bits() != 0,
    ensures
        !VfsOperations::spec_empty().spec_contains(flag),
        VfsOperations::spec_empty().spec_bits() == 0,
{
    let f = flag.spec_bits();
    assert(f != 0 ==> 0u32 & f != f) by (bit_vector);
}

/// The empty set holds no bit.
pub proof fn lemma_empty_bits()
    ensures
        VfsOperations::spec_empty().spec_bits() == 0,
{
}

/// The write operations are exactly making and removing a directory,
/// uploading, deleting and renaming: each of these is in the aggregate, and
/// downloading, computing a checksum and listing are not.
pub proof fn lemma_write_ops_exact()
    ensures
        WRITE_OPS_BITS == MK_DIR_BIT | RM_DIR_BIT | PUT_BIT | DEL_BIT | RENAME_BIT,
        bits_contain(WRITE_OPS_BITS, MK_DIR_BIT),
        bits_contain(WRITE_OPS_BITS, RM_DIR_BIT),
        bits_contain(WRITE_OPS_BITS, PUT_BIT),
        bits_contain(WRITE_OPS_BITS, DEL_BIT),
        bits_contain(WRITE_OPS_BITS, RENAME_BIT),
        WRITE_OPS_BITS & GET_BIT == 0,
        WRITE_OPS_BITS & MD5_BIT == 0,
        WRITE_OPS_BITS & LIST_BIT == 0,
{
    assert(WRITE_OPS_BITS == 0b0011_1011) by (bit_vector);
    assert(0b0011_1011u32 & 1u32 == 1u32 && 0b0011_1011u32 & 2u32 == 2u32 && 0b0011_1011u32 & 8u32
        == 8u32 && 0b0011_1011u32 & 16u32 == 16u32 && 0b0011_1011u32 & 32u32 == 32u32
        && 0b0011_1011u32 & 4u32 == 0u32 && 0b0011_1011u32 & 64u32 == 0u32 && 0b0011_1011u32
        & 128u32 == 0u32) by (bit_vector);
}

/// A user of the storage back-end that holds a set of granted operations.
pub trait UserWithPermissions {
    /// The operations that the user may perform: fixed for a given user.
    spec fn spec_permissions(&self) -> VfsOperations;

    /// The operations that the user may perform.
    fn permissions(&self) -> (r: VfsOperations)
        ensures
            r == self.spec_permissions(),
    ;
}

} // verus!
