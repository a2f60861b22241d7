//! The local quota backend: what to ask the operating system, and what its
//! answer means.
//!
//! The ext family and XFS are served by two control interfaces with one
//! calling contract: device, identity and a user-or-group flag go in; a
//! status and four counters come out. Status 0 is success, status 1 says
//! that the identity has no quota, any other status is a failure whose
//! reason is the operating system's error code.

use crate::classify::FilesystemKind;
use crate::error::{outcome_view, FqError};
use crate::quota::{normalize, normalized, QuotaRecord, RawCounters};
use crate::text::{is_marshallable, marshallable};
use vstd::prelude::*;

verus! {

/// Which of the two control interfaces serves a filesystem.
#[derive(Clone, Copy, Debug, PartialEq, Eq, Structural)]
pub enum QuotaFamily {
    Ext,
    Xfs,
}

/// One call of the local quota interface, ready to be made.
#[derive(Clone, Debug, PartialEq, Eq)]
pub struct LocalCall {
    /// The interface to call.
    pub family: QuotaFamily,
    /// The device to ask about; holds no NUL character.
    pub device: String,
    /// The identity, as the interface takes it.
    pub id: i32,
    /// Whether the identity is a group rather than a user.
    pub group: bool,
}

/// What a [`LocalCall`] says, as plain values.
pub struct LocalCallView {
    pub family: QuotaFamily,
    pub device: Seq<char>,
    pub id: i32,
    pub group: bool,
}

impl View for LocalCall {
    type V = LocalCallView;

    open spec fn view(&self) -> LocalCallView {
        LocalCallView {
            family: self.family,
            device: self.device@,
            id: self.id,
            group: self.group,
        }
    }
}

impl LocalCall {
    /// The invariant of a prepared call: its device can be marshalled.
    pub open spec fn well_formed(&self) -> bool {
        marshallable(self.device@)
    }
}

/// The interface that serves a kind of filesystem, if one does.
pub open spec fn family_of(kind: FilesystemKind) -> Option<QuotaFamily> {
    match kind {
        FilesystemKind::LocalExt => Some(QuotaFamily::Ext),
        FilesystemKind::LocalXfs => Some(QuotaFamily::Xfs),
        _ => None,
    }
}

/// An identity as the interface takes it: the signed 32-bit integer with
/// the same bits.
pub open spec fn marshalled_id(id: u32) -> int {
    if id <= 0x7fff_ffff {
        id as int
    } else {
        id - 0x1_0000_0000
    }
}

/// The call that [`local_call`] prepares, or the reason why it prepares
/// none.
pub open spec fn prepared_local_call(
    device: Seq<char>,
    kind: FilesystemKind,
    id: u32,
    group: bool,
) -> Result<LocalCallView, FqError> {
    if !marshallable(device) {
        Err(FqError::EncodingFailure)
    } else {
        match family_of(kind) {
            Some(family) => Ok(
                LocalCallView { family, device, id: marshalled_id(id) as i32, group },
            ),
            None => Err(FqError::NoQuota),
        }
    }
}

/// What the outcome of a local call means.
pub open spec fn local_result(status: i32, counters: RawCounters, os_error: i32) -> Result<
    QuotaRecord,
    FqError,
> {
    if status == 0 {
        Ok(normalized(counters))
    } else if status == 1 {
        Err(FqError::NoQuota)
    } else {
        Err(FqError::IoFailure(os_error))
    }
}

/// Marshals an identity. Every identity can be marshalled.
pub fn marshal_id(id: u32) -> (raw: i32)
    ensures
        raw == marshalled_id(id),
{
    if id <= 0x7fff_ffff {
        id as i32
    } else {
        let low: i32 = (id - 0x8000_0000) as i32;
        low + i32::MIN
    }
}

/// Prepares the local call for a device of the given kind.
///
/// Fails with `EncodingFailure` when the device path cannot be marshalled.
/// Otherwise fails with `NoQuota` when no local interface serves the kind:
/// such a filesystem is never asked, and has no quota to report.
pub fn local_call(device: &str, kind: FilesystemKind, id: u32, group: bool) -> (call: Result<
    LocalCall,
    FqError,
>)
    ensures
        outcome_view(call) == prepared_local_call(device@, kind, id, group),
        call matches Ok(c) ==> c.well_formed(),
{
    if !is_marshallable(device) {
        return Err(FqError::EncodingFailure);
    }
    let family = match kind {
        FilesystemKind::LocalExt => QuotaFamily::Ext,
        FilesystemKind::LocalXfs => QuotaFamily::Xfs,
        _ => {
            return Err(FqError::NoQuota);
        },
    };
    Ok(LocalCall { family, device: device.to_owned(), id: marshal_id(id), group })
}

/// Folds the outcome of a local call into a record or an error.
///
/// `status` and `counters` are what the interface returned; `os_error` is
/// the operating system's error code after the call, which is looked at only
/// for a status other than 0 and 1. On success the counters are normalized:
/// a limit of all ones becomes an absent limit.
pub fn get_quota(status: i32, counters: RawCounters, os_error: i32) -> (result: Result<
    QuotaRecord,
    FqError,
>)
    ensures
        result == local_result(status, counters, os_error),
        result matches Ok(record) ==> record.sentinel_free(),
{
    if status == 0 {
        Ok(normalize(counters))
    } else if status == 1 {
        Err(FqError::NoQuota)
    } else {
        Err(FqError::from_os_error(os_error))
    }
}

} // verus!
