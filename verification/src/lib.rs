//! Disk-space and inode usage versus the enforced quota, answered uniformly
//! for ext-family, XFS and NFS mounts.
//!
//! The crate holds the decisions of a quota query and none of its system
//! calls: it parses the mount table, picks the mount a path lives on,
//! classifies that mount, says which backend has to be asked, and folds
//! whatever the backend answered into one [`quota::QuotaRecord`] or one
//! [`error::FqError`]. The caller reads the mount table, performs the call
//! the plan names, and hands the raw outcome back.

pub mod classify;
pub mod error;
pub mod fallback;
pub mod local;
pub mod mtab;
pub mod query;
pub mod quota;
pub mod remote;
pub mod resolve;
pub mod text;

pub use classify::FilesystemKind;
pub use error::FqError;
pub use mtab::MountRecord;
pub use quota::QuotaRecord;
