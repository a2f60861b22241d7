//! The fallback estimator: usage and an approximate limit from the
//! statistics of the whole filesystem.
//!
//! Where no quota mechanism is known, or where the caller asks for the
//! filesystem rather than for an identity, the answer is computed from block
//! and inode counts. The limit is the capacity less what is reserved from
//! ordinary users: the point at which an ordinary process runs out of space.

use crate::error::{outcome_view, FqError};
use crate::quota::QuotaRecord;
use crate::text::{is_marshallable, marshallable};
use vstd::prelude::*;

verus! {

/// One stat call, ready to be made.
#[derive(Clone, Debug, PartialEq, Eq)]
pub struct StatCall {
    /// The path whose filesystem is asked about; holds no NUL character.
    pub path: String,
}

impl View for StatCall {
    type V = Seq<char>;

    open spec fn view(&self) -> Seq<char> {
        self.path@
    }
}

impl StatCall {
    /// The invariant of a prepared call: its path can be marshalled.
    pub open spec fn well_formed(&self) -> bool {
        marshallable(self.path@)
    }
}

/// The call that [`stat_call`] prepares, or the reason why it prepares
/// none.
pub open spec fn prepared_stat_call(path: Seq<char>) -> Result<Seq<char>, FqError> {
    if marshallable(path) {
        Ok(path)
    } else {
        Err(FqError::EncodingFailure)
    }
}

/// Prepares the stat call for `path`. Fails with `EncodingFailure` when the
/// path cannot be marshalled.
pub fn stat_call(path: &str) -> (call: Result<StatCall, FqError>)
    ensures
        outcome_view(call) == prepared_stat_call(path@),
        call matches Ok(c) ==> c.well_formed(),
{
    if is_marshallable(path) {
        Ok(StatCall { path: path.to_owned() })
    } else {
        Err(FqError::EncodingFailure)
    }
}

/// The statistics of a filesystem, as the stat call reports them.
#[derive(Clone, Copy, Debug, PartialEq, Eq, Structural)]
pub struct FsStats {
    /// The size of a block in bytes.
    pub block_size: u64,
    /// All blocks of the filesystem.
    pub blocks: u64,
    /// The blocks that are free.
    pub blocks_free: u64,
    /// The free blocks that an unprivileged user may take.
    pub blocks_available: u64,
    /// All inodes of the filesystem.
    pub files: u64,
    /// The inodes that are free.
    pub files_free: u64,
    /// The free inodes that an unprivileged user may take.
    pub files_available: u64,
}

impl FsStats {
    /// The bytes in use: the blocks that are not free, times the block size.
    pub open spec fn bytes_used(self) -> int {
        (self.blocks - self.blocks_free) * self.block_size
    }

    /// The bytes an ordinary user can ever fill: all blocks but the reserved
    /// ones, times the block size. The reserved blocks are those that are
    /// free but not available.
    pub open spec fn bytes_limit(self) -> int {
        (self.blocks - (self.blocks_free - self.blocks_available)) * self.block_size
    }

    /// The inodes in use.
    pub open spec fn files_used(self) -> int {
        self.files - self.files_free
    }

    /// The inodes an ordinary user can ever take.
    pub open spec fn files_limit(self) -> int {
        self.files - (self.files_free - self.files_available)
    }

    /// The four figures of the estimate are numbers a record can hold.
    pub open spec fn representable(self) -> bool {
        &&& 0 <= self.bytes_used() <= u64::MAX
        &&& 0 <= self.bytes_limit() <= u64::MAX
        &&& 0 <= self.files_used() <= u64::MAX
        &&& 0 <= self.files_limit() <= u64::MAX
    }

    /// Decides [`FsStats::representable`].
    pub fn is_representable(&self) -> (b: bool)
        ensures
            b == self.representable(),
    {
        let used: i128 = self.blocks as i128 - self.blocks_free as i128;
        let usable: i128 = self.blocks as i128 - (self.blocks_free as i128
            - self.blocks_available as i128);
        let files_used: i128 = self.files as i128 - self.files_free as i128;
        let files_limit: i128 = self.files as i128 - (self.files_free as i128
            - self.files_available as i128);
        fits(used.checked_mul(self.block_size as i128)) && fits(
            usable.checked_mul(self.block_size as i128),
        ) && fits(Some(files_used)) && fits(Some(files_limit))
    }
}

/// Whether a figure was computed and lies in the range of `u64`.
fn fits(figure: Option<i128>) -> (b: bool)
    ensures
        b == (figure matches Some(n) && 0 <= n <= u64::MAX),
{
    match figure {
        Some(n) => 0 <= n && n <= u64::MAX as i128,
        None => false,
    }
}

/// What the outcome of the stat call means.
pub open spec fn estimate(outcome: Result<FsStats, i32>) -> Result<QuotaRecord, FqError> {
    match outcome {
        Ok(stats) => Ok(
            QuotaRecord {
                bytes_used: stats.bytes_used() as u64,
                bytes_limit: Some(stats.bytes_limit() as u64),
                files_used: stats.files_used() as u64,
                files_limit: Some(stats.files_limit() as u64),
            },
        ),
        Err(code) => Err(FqError::IoFailure(code)),
    }
}

/// Estimates usage and limits from the outcome of the stat call: the
/// statistics, or the operating system's error code.
///
/// A failed call is `IoFailure` with its code. Otherwise
/// `bytes_used = (blocks - blocks_free) * block_size` and
/// `bytes_limit = (blocks - (blocks_free - blocks_available)) * block_size`,
/// and the same for inodes without the factor; both limits are present.
pub fn statvfs(outcome: Result<FsStats, i32>) -> (result: Result<QuotaRecord, FqError>)
    requires
        outcome matches Ok(stats) ==> stats.representable(),
    ensures
        result == estimate(outcome),
        match outcome {
            Ok(stats) => {
                &&& result matches Ok(record)
                &&& record.bytes_used == (stats.blocks - stats.blocks_free) * stats.block_size
                &&& record.bytes_limit matches Some(limit)
                &&& limit == (stats.blocks - (stats.blocks_free - stats.blocks_available))
                    * stats.block_size
                &&& record.files_used == stats.files - stats.files_free
                &&& record.files_limit matches Some(limit)
                &&& limit == stats.files - (stats.files_free - stats.files_available)
            },
            Err(code) => result == Err::<QuotaRecord, FqError>(FqError::IoFailure(code)),
        },
{
    match outcome {
        Ok(stats) => {
            let size: i128 = stats.block_size as i128;
            let used: i128 = stats.blocks as i128 - stats.blocks_free as i128;
            let usable: i128 = stats.blocks as i128 - (stats.blocks_free as i128
                - stats.blocks_available as i128);
            let files_used: i128 = stats.files as i128 - stats.files_free as i128;
            let files_limit: i128 = stats.files as i128 - (stats.files_free as i128
                - stats.files_available as i128);
            assert(used * size == stats.bytes_used());
            assert(usable * size == stats.bytes_limit());
            Ok(
                QuotaRecord {
                    bytes_used: (used * size) as u64,
                    bytes_limit: Some((usable * size) as u64),
                    files_used: files_used as u64,
                    files_limit: Some(files_limit as u64),
                },
            )
        },
        Err(code) => Err(FqError::from_os_error(code)),
    }
}

} // verus!
