use vstd::prelude::*;
use crate::permissions::{
    VfsOperations, bits_contain, lemma_empty_bits, MK_DIR_BIT, RM_DIR_BIT, GET_BIT, PUT_BIT, DEL_BIT, RENAME_BIT,
    MD5_BIT, LIST_BIT,
};

verus! {

/// The operations of the storage back-end.
#[derive(Clone, Copy, Debug, PartialEq, Eq, Structural)]
pub enum Operation {
    /// Report the back-end's name.
    Name,
    /// Report the features that the back-end supports.
    SupportedFeatures,
    /// Look up the metadata of a path.
    Metadata,
    /// Compute the checksum of a file.
    Md5,
    /// List a directory as entries.
    List,
    /// List a directory as a formatted listing.
    ListFmt,
    /// List a directory as a listing of names.
    Nlst,
    /// Read a file into a sink.
    GetInto,
    /// Read a file as a stream.
    Get,
    /// Write a file from a stream.
    Put,
    /// Delete a file.
    Del,
    /// Make a directory.
    Mkd,
    /// Rename a path.
    Rename,
    /// Remove a directory.
    Rmd,
    /// Change the working directory.
    Cwd,
}

/// The bit that an operation needs, or `None` where it is always allowed.
pub open spec fn required_bit(op: Operation) -> Option<u32> {
    match op {
        Operation::Name => None,
        Operation::SupportedFeatures => None,
        Operation::Metadata => None,
        Operation::Cwd => None,
        Operation::Md5 => Some(MD5_BIT),
        Operation::List => Some(LIST_BIT),
        Operation::ListFmt => Some(LIST_BIT),
        Operation::Nlst => Some(LIST_BIT),
        Operation::GetInto => Some(GET_BIT),
        Operation::Get => Some(GET_BIT),
        Operation::Put => Some(PUT_BIT),
        Operation::Del => Some(DEL_BIT),
        Operation::Mkd => Some(MK_DIR_BIT),
        Operation::Rename => Some(RENAME_BIT),
        Operation::Rmd => Some(RM_DIR_BIT),
    }
}

/// An operation that needs a bit of the user's set before it is handed on.
pub open spec fn is_guarded(op: Operation) -> bool {
    required_bit(op) is Some
}

/// A user with the set `perms` may perform `op`.
pub open spec fn permits(perms: VfsOperations, op: Operation) -> bool {
    match required_bit(op) {
        None => true,
        Some(bit) => bits_contain(perms.spec_bits(), bit),
    }
}

impl Operation {
    /// The permission that the operation needs, or `None` where it is always
    /// allowed.
    pub fn required_permission(&self) -> (r: Option<VfsOperations>)
        ensures
            r is None <==> required_bit(*self) is None,
            r matches Some(p) ==> required_bit(*self) == Some(p.spec_bits()) && p.wf(),
    {
        match self {
            Operation::Name => None,
            Operation::SupportedFeatures => None,
            Operation::Metadata => None,
            Operation::Cwd => None,
            Operation::Md5 => Some(VfsOperations::md5()),
            Operation::List => Some(VfsOperations::list()),
            Operation::ListFmt => Some(VfsOperations::list()),
            Operation::Nlst => Some(VfsOperations::list()),
            Operation::GetInto => Some(VfsOperations::get()),
            Operation::Get => Some(VfsOperations::get()),
            Operation::Put => Some(VfsOperations::put()),
            Operation::Del => Some(VfsOperations::del()),
            Operation::Mkd => Some(VfsOperations::mk_dir()),
            Operation::Rename => Some(VfsOperations::rename()),
            Operation::Rmd => Some(VfsOperations::rm_dir()),
        }
    }
}

/// Whether a user with the set `perms` may perform `op`.
pub fn is_permitted(perms: VfsOperations, op: Operation) -> (r: bool)
    ensures
        r == permits(perms, op),
{
    match op.required_permission() {
        None => true,
        Some(needed) => perms.contains(needed),
    }
}

/// A guarded operation is denied to every user whose set lacks the bit that
/// the operation needs.
pub proof fn lemma_missing_bit_denies(perms: VfsOperations, op: Operation)
    requires
        required_bit(op) matches Some(bit) && !bits_contain(perms.spec_bits(), bit),
    ensures
        is_guarded(op),
        !permits(perms, op),
{
}

/// A guarded operation is allowed to every user whose set holds the bit that
/// the operation needs.
pub proof fn lemma_held_bit_permits(perms: VfsOperations, op: Operation)
    requires
        required_bit(op) matches Some(bit) && bits_contain(perms.spec_bits(), bit),
    ensures
        permits(perms, op),
{
}

/// Looking up metadata, changing the working directory and reporting the
/// back-end's name and features are allowed to every user, also to one with
/// the empty set.
pub proof fn lemma_unguarded_always_permitted(perms: VfsOperations, op: Operation)
    requires
        op is Metadata || op is Cwd || op is Name || op is SupportedFeatures,
    ensures
        !is_guarded(op),
        permits(perms, op),
        permits(VfsOperations::spec_empty(), op),
{
}

/// Renaming needs the rename bit alone: a set that holds it allows renaming
/// whether or not it holds the bits to delete a file or make a directory.
pub proof fn lemma_rename_needs_only_rename_bit(perms: VfsOperations)
    requires
        bits_contain(perms.spec_bits(), RENAME_BIT),
    ensures
        permits(perms, Operation::Rename),
{
}

/// A user with the empty set is denied every guarded operation.
pub proof fn lemma_empty_set_denies_guarded(op: Operation)
    requires
        is_guarded(op),
    ensures
        !permits(VfsOperations::spec_empty(), op),
{
    let bit = required_bit(op)->Some_0;
    assert(bit == MK_DIR_BIT || bit == RM_DIR_BIT || bit == GET_BIT || bit == PUT_BIT || bit
        == DEL_BIT || bit == RENAME_BIT || bit == MD5_BIT || bit == LIST_BIT);
    lemma_empty_bits();
    lemma_empty_bits_contain_nothing(bit);
}

proof fn lemma_empty_bits_contain_nothing(bit: u32)
    requires
        bit != 0,
    ensures
        !bits_contain(0, bit),
{
    assert(bit != 0 ==> 0u32 & bit != bit) by (bit_vector);
}

} // verus!
