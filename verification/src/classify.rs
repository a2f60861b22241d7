//! From a filesystem-type string to the quota mechanism that serves it.

use crate::text::starts_with;
use vstd::prelude::*;

verus! {

/// The quota mechanism of a mount.
#[derive(Clone, Copy, Debug, PartialEq, Eq, Structural)]
pub enum FilesystemKind {
    /// A local ext2, ext3 or ext4 filesystem.
    LocalExt,
    /// A local XFS filesystem.
    LocalXfs,
    /// A filesystem mounted from an NFS server.
    Nfs,
    /// Anything else: no quota mechanism is known for it.
    Unsupported,
}

/// The type names an ext-family filesystem: it begins with `ext2`, `ext3`
/// or `ext4`.
pub open spec fn is_ext_type(fstype: Seq<char>) -> bool {
    ||| seq!['e', 'x', 't', '2'].is_prefix_of(fstype)
    ||| seq!['e', 'x', 't', '3'].is_prefix_of(fstype)
    ||| seq!['e', 'x', 't', '4'].is_prefix_of(fstype)
}

/// The type is exactly `xfs`.
pub open spec fn is_xfs_type(fstype: Seq<char>) -> bool {
    fstype =~= seq!['x', 'f', 's']
}

/// The type begins with `nfs`.
pub open spec fn is_nfs_type(fstype: Seq<char>) -> bool {
    seq!['n', 'f', 's'].is_prefix_of(fstype)
}

/// The kind of a mount with the given type string, with or without a
/// remote host.
pub open spec fn kind_of(fstype: Seq<char>, host_present: bool) -> FilesystemKind {
    if is_ext_type(fstype) && !host_present {
        FilesystemKind::LocalExt
    } else if is_xfs_type(fstype) && !host_present {
        FilesystemKind::LocalXfs
    } else if is_nfs_type(fstype) && host_present {
        FilesystemKind::Nfs
    } else {
        FilesystemKind::Unsupported
    }
}

/// The three recognized kinds exclude one another, and `Unsupported` is
/// exactly what none of them claims: every type string, with or without a
/// host, has one kind and only one.
pub proof fn lemma_kinds_partition(fstype: Seq<char>, host_present: bool)
    ensures
        kind_of(fstype, host_present) == FilesystemKind::LocalExt <==> is_ext_type(fstype)
            && !host_present,
        kind_of(fstype, host_present) == FilesystemKind::LocalXfs <==> is_xfs_type(fstype)
            && !host_present,
        kind_of(fstype, host_present) == FilesystemKind::Nfs <==> is_nfs_type(fstype)
            && host_present,
        kind_of(fstype, host_present) == FilesystemKind::Unsupported <==> !(is_ext_type(fstype)
            && !host_present) && !(is_xfs_type(fstype) && !host_present) && !(is_nfs_type(fstype)
            && host_present),
{
    if is_ext_type(fstype) {
        assert(fstype[0] == 'e');
    }
}

/// Whether `fstype` begins with `nfs`.
pub fn has_nfs_type(fstype: &str) -> (b: bool)
    ensures
        b == is_nfs_type(fstype@),
{
    proof {
        reveal_strlit("nfs");
        assert("nfs"@ =~= seq!['n', 'f', 's']);
    }
    starts_with(fstype, "nfs")
}

/// Whether `fstype` begins with `ext2`, `ext3` or `ext4`.
pub fn has_ext_type(fstype: &str) -> (b: bool)
    ensures
        b == is_ext_type(fstype@),
{
    proof {
        reveal_strlit("ext2");
        reveal_strlit("ext3");
        reveal_strlit("ext4");
        assert("ext2"@ =~= seq!['e', 'x', 't', '2']);
        assert("ext3"@ =~= seq!['e', 'x', 't', '3']);
        assert("ext4"@ =~= seq!['e', 'x', 't', '4']);
    }
    starts_with(fstype, "ext2") || starts_with(fstype, "ext3") || starts_with(fstype, "ext4")
}

/// Whether `fstype` is `xfs`.
pub fn has_xfs_type(fstype: &str) -> (b: bool)
    ensures
        b == is_xfs_type(fstype@),
{
    proof {
        reveal_strlit("xfs");
        assert("xfs"@ =~= seq!['x', 'f', 's']);
    }
    starts_with(fstype, "xfs") && starts_with("xfs", fstype)
}

/// Classifies a mount by its type string and by whether it names a remote
/// host. Never fails: what is not recognized is `Unsupported`.
pub fn classify(fstype: &str, host_present: bool) -> (kind: FilesystemKind)
    ensures
        kind == kind_of(fstype@, host_present),
{
    if !host_present && has_ext_type(fstype) {
        FilesystemKind::LocalExt
    } else if !host_present && has_xfs_type(fstype) {
        FilesystemKind::LocalXfs
    } else if host_present && has_nfs_type(fstype) {
        FilesystemKind::Nfs
    } else {
        FilesystemKind::Unsupported
    }
}

} // verus!
