//! The normalized quota record and the rule that turns raw limits into it.

use vstd::prelude::*;

verus! {

/// The value by which the quota interfaces say "no limit": all 64 bits set.
pub const NO_LIMIT: u64 = 0xffff_ffff_ffff_ffff;

/// Usage and limits exactly as a backend reported them, sentinel included.
#[derive(Clone, Copy, Debug, PartialEq, Eq, Structural)]
pub struct RawCounters {
    pub bytes_used: u64,
    pub bytes_limit: u64,
    pub files_used: u64,
    pub files_limit: u64,
}

/// Usage and limits of one identity on one filesystem. An absent limit
/// means that none is enforced.
#[derive(Clone, Copy, Debug, PartialEq, Eq, Structural)]
pub struct QuotaRecord {
    pub bytes_used: u64,
    pub bytes_limit: Option<u64>,
    pub files_used: u64,
    pub files_limit: Option<u64>,
}

/// A raw limit as an optional one: the sentinel is no limit at all, every
/// other value is the limit itself.
pub open spec fn limit_of(raw: u64) -> Option<u64> {
    if raw == NO_LIMIT {
        None
    } else {
        Some(raw)
    }
}

/// The record that raw counters stand for.
pub open spec fn normalized(raw: RawCounters) -> QuotaRecord {
    QuotaRecord {
        bytes_used: raw.bytes_used,
        bytes_limit: limit_of(raw.bytes_limit),
        files_used: raw.files_used,
        files_limit: limit_of(raw.files_limit),
    }
}

impl QuotaRecord {
    /// No limit of the record is the sentinel in disguise.
    pub open spec fn sentinel_free(self) -> bool {
        self.bytes_limit != Some(NO_LIMIT) && self.files_limit != Some(NO_LIMIT)
    }
}

/// Turns one raw limit into an optional one.
pub fn normalize_limit(raw: u64) -> (limit: Option<u64>)
    ensures
        limit == limit_of(raw),
        limit != Some(NO_LIMIT),
{
    if raw == NO_LIMIT {
        None
    } else {
        Some(raw)
    }
}

/// Turns raw counters into a record. Usage is carried over unchanged; each
/// limit goes through [`normalize_limit`]. This is the only place where the
/// sentinel is interpreted.
pub fn normalize(raw: RawCounters) -> (record: QuotaRecord)
    ensures
        record == normalized(raw),
        record.sentinel_free(),
{
    QuotaRecord {
        bytes_used: raw.bytes_used,
        bytes_limit: normalize_limit(raw.bytes_limit),
        files_used: raw.files_used,
        files_limit: normalize_limit(raw.files_limit),
    }
}

} // verus!
