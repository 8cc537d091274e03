//! What the file system says of a file.
use vstd::prelude::*;

verus! {

/// What the file system says of a file.
#[derive(Clone, Copy, Debug, PartialEq, Eq, Structural)]
pub struct Metadata {
    /// A regular file.
    pub is_file: bool,
    /// A directory.
    pub is_dir: bool,
    /// A symbolic link.
    pub is_symlink: bool,
    /// The permission bits.
    pub mode: u32,
    /// The owner.
    pub uid: u32,
}

/// The bits that let someone execute a file.
pub const EXECUTE_BITS: u32 = 0o111;

/// The bits that let the group or anyone write a file.
pub const SHARED_WRITE_BITS: u32 = 0o022;

impl Metadata {
    /// Someone may execute the file.
    pub open spec fn executable(self) -> bool {
        self.mode & EXECUTE_BITS != 0
    }

    /// Someone other than the owner may write the file.
    pub open spec fn shared_writable(self) -> bool {
        self.mode & SHARED_WRITE_BITS != 0
    }

    /// Whether someone may execute the file.
    pub fn is_executable(&self) -> (r: bool)
        ensures
            r == self.executable(),
    {
        self.mode & EXECUTE_BITS != 0
    }

    /// Whether someone other than the owner may write the file.
    pub fn is_shared_writable(&self) -> (r: bool)
        ensures
            r == self.shared_writable(),
    {
        self.mode & SHARED_WRITE_BITS != 0
    }
}

/// A file is executable where its owner, its group or anyone may execute it, and open to others
/// where its group or anyone may write it.
pub proof fn law_permission_bits(found: Metadata)
    ensures
        found.executable() <==> (found.mode & 0o100 != 0 || found.mode & 0o010 != 0 || found.mode
            & 0o001 != 0),
        found.shared_writable() <==> (found.mode & 0o020 != 0 || found.mode & 0o002 != 0),
{
    let mode = found.mode;
    assert(mode & 0o111u32 != 0 <==> (mode & 0o100u32 != 0 || mode & 0o010u32 != 0 || mode
        & 0o001u32 != 0)) by (bit_vector);
    assert(mode & 0o022u32 != 0 <==> (mode & 0o020u32 != 0 || mode & 0o002u32 != 0))
        by (bit_vector);
}

} // verus!
