//! One query from end to end: which backend a path has to be asked through,
//! and what the backend's raw output means.
//!
//! The crate makes no system call. A caller reads the mount table, lets
//! [`start`] choose the backend, asks it, and lets [`conclude`] fold the
//! output into the answer.

use crate::classify::FilesystemKind;
use crate::error::{outcome_view, FqError};
use crate::fallback::{estimate, prepared_stat_call, stat_call, statvfs, FsStats, StatCall};
use crate::local::{
    get_quota, local_call, local_result, prepared_local_call, LocalCall, LocalCallView,
};
use crate::mtab::{mount_table, read_mtab, views, MountRecord, MountView};
use crate::quota::{QuotaRecord, RawCounters, NO_LIMIT};
use crate::remote::{
    get_remote_quota, remote_call, remote_result, RemoteCall, RemoteCallView, RemoteOutcome,
};
use crate::resolve::{resolution, resolve};
use vstd::prelude::*;

verus! {

/// The backend that answers for a mount, with what it has to be asked.
#[derive(Clone, Debug, PartialEq, Eq)]
pub enum Backend {
    /// Ask the operating system's quota interface.
    Local(LocalCall),
    /// Ask the quota service of an NFS server.
    Remote(RemoteCall),
    /// No quota mechanism is known: estimate from the statistics of the
    /// filesystem the path lies on.
    Fallback(StatCall),
}

impl Backend {
    /// The invariant of a chosen backend: what has to be marshalled for its
    /// call can be.
    pub open spec fn well_formed(&self) -> bool {
        match self {
            Backend::Local(call) => call.well_formed(),
            Backend::Remote(_) => true,
            Backend::Fallback(call) => call.well_formed(),
        }
    }
}

/// What a [`Backend`] says, as plain values.
pub enum BackendView {
    Local(LocalCallView),
    Remote(RemoteCallView),
    Fallback(Seq<char>),
}

impl View for Backend {
    type V = BackendView;

    open spec fn view(&self) -> BackendView {
        match self {
            Backend::Local(call) => BackendView::Local(call@),
            Backend::Remote(call) => BackendView::Remote(call@),
            Backend::Fallback(call) => BackendView::Fallback(call@),
        }
    }
}

/// The raw output of a backend.
#[derive(Clone, Copy, Debug, PartialEq, Eq)]
pub enum BackendOutput {
    /// The local quota interface returned `status` and `counters`, and left
    /// `os_error` as the operating system's error code.
    Local { status: i32, counters: RawCounters, os_error: i32 },
    /// A request to a remote quota service ended.
    Remote(RemoteOutcome),
    /// The stat call returned statistics, or failed with an error code.
    Stat(Result<FsStats, i32>),
}

/// What was read of the mount table, as plain text.
pub open spec fn text_of(table: Result<&str, i32>) -> Result<Seq<char>, i32> {
    match table {
        Ok(text) => Ok(text@),
        Err(code) => Err(code),
    }
}

/// The identity a query is about: the requested one, or the caller's own
/// where none was requested.
pub open spec fn identity_of(requested: Option<u32>, own: u32) -> u32 {
    match requested {
        Some(id) => id,
        None => own,
    }
}

/// The backend for a path on a given mount.
pub open spec fn backend_of(mount: MountView, path: Seq<char>, id: u32, group: bool) -> Result<
    BackendView,
    FqError,
> {
    match mount.kind() {
        FilesystemKind::LocalExt | FilesystemKind::LocalXfs => match prepared_local_call(
            mount.device,
            mount.kind(),
            id,
            group,
        ) {
            Ok(call) => Ok(BackendView::Local(call)),
            Err(e) => Err(e),
        },
        FilesystemKind::Nfs => Ok(
            BackendView::Remote(
                RemoteCallView { host: mount.host->0, export: mount.device, id, group },
            ),
        ),
        FilesystemKind::Unsupported => match prepared_stat_call(path) {
            Ok(call) => Ok(BackendView::Fallback(call)),
            Err(e) => Err(e),
        },
    }
}

/// The backend for a path: that of the mount the path resolves to.
pub open spec fn planned(mounts: Seq<MountView>, path: Seq<char>, id: u32, group: bool) -> Result<
    BackendView,
    FqError,
> {
    match resolution(mounts, path) {
        Some(i) => backend_of(mounts[i], path, id, group),
        None => Err(FqError::Unsupported),
    }
}

/// The backend for a query, from what the caller could read of the mount
/// table: its text, or the operating system's error code.
pub open spec fn started(
    table: Result<Seq<char>, i32>,
    path: Seq<char>,
    requested: Option<u32>,
    own: u32,
    group: bool,
) -> Result<BackendView, FqError> {
    match table {
        Ok(text) => planned(mount_table(text), path, identity_of(requested, own), group),
        Err(code) => Err(FqError::IoFailure(code)),
    }
}

/// What the raw output of a backend means.
pub open spec fn conclusion(output: BackendOutput) -> Result<QuotaRecord, FqError> {
    match output {
        BackendOutput::Local { status, counters, os_error } => local_result(
            status,
            counters,
            os_error,
        ),
        BackendOutput::Remote(outcome) => remote_result(outcome),
        BackendOutput::Stat(outcome) => estimate(outcome),
    }
}

/// An output that [`conclude`] can fold: statistics, where it holds any,
/// whose estimate a record can hold.
pub open spec fn concludable(output: BackendOutput) -> bool {
    output matches BackendOutput::Stat(Ok(stats)) ==> stats.representable()
}

/// Whatever backend reported them, raw counters with a limit of all ones
/// give a record without that limit, and no record that comes from raw
/// counters holds all ones as a limit.
pub proof fn lemma_sentinel_never_exposed(counters: RawCounters, os_error: i32)
    ensures
        conclusion(BackendOutput::Local { status: 0, counters, os_error }) == conclusion(
            BackendOutput::Remote(RemoteOutcome::Counters(counters)),
        ),
        conclusion(BackendOutput::Local { status: 0, counters, os_error }) matches Ok(record) && {
            &&& record.sentinel_free()
            &&& counters.bytes_limit == NO_LIMIT ==> record.bytes_limit is None
            &&& counters.files_limit == NO_LIMIT ==> record.files_limit is None
            &&& counters.bytes_limit != NO_LIMIT ==> record.bytes_limit == Some(
                counters.bytes_limit,
            )
            &&& counters.files_limit != NO_LIMIT ==> record.files_limit == Some(
                counters.files_limit,
            )
        },
{
}

/// Text never fails a query's start as a read would: `IoFailure` comes out
/// only where the mount table could not be read, with the code of that
/// failure.
pub proof fn lemma_only_a_failed_read_is_io_failure(
    table: Result<Seq<char>, i32>,
    path: Seq<char>,
    requested: Option<u32>,
    own: u32,
    group: bool,
)
    ensures
        started(table, path, requested, own, group) matches Err(FqError::IoFailure(code))
            ==> table == Err::<Seq<char>, i32>(code),
{
}

/// Settles the identity of a query.
pub fn effective_identity(requested: Option<u32>, own: u32) -> (id: u32)
    ensures
        id == identity_of(requested, own),
{
    match requested {
        Some(id) => id,
        None => own,
    }
}

/// Chooses the backend for a path on a given mount, by the kind of the
/// mount.
///
/// A local ext or XFS mount is asked through the local interface, about its
/// device. An NFS mount is asked through the quota service of its host,
/// about the exported path. Any other mount falls back to the estimate for
/// the path. Fails with `EncodingFailure` when the device of a local mount,
/// or the path of a fallback, cannot be marshalled.
pub fn backend_for(mount: &MountRecord, path: &str, id: u32, group: bool) -> (backend: Result<
    Backend,
    FqError,
>)
    ensures
        outcome_view(backend) == backend_of(mount@, path@, id, group),
        backend matches Ok(b) ==> b.well_formed(),
{
    let kind = mount.kind();
    match kind {
        FilesystemKind::LocalExt | FilesystemKind::LocalXfs => {
            match local_call(mount.device.as_str(), kind, id, group) {
                Ok(call) => Ok(Backend::Local(call)),
                Err(e) => Err(e),
            }
        },
        FilesystemKind::Nfs => {
            let host = mount.host.as_ref().unwrap();
            Ok(Backend::Remote(remote_call(host.as_str(), mount.device.as_str(), id, group)))
        },
        FilesystemKind::Unsupported => {
            match stat_call(path) {
                Ok(call) => Ok(Backend::Fallback(call)),
                Err(e) => Err(e),
            }
        },
    }
}

/// Chooses the backend for a path: resolves the path to its mount and
/// chooses by that mount. Fails with `Unsupported` when no mount covers the
/// path.
pub fn plan(mounts: &Vec<MountRecord>, path: &str, id: u32, group: bool) -> (backend: Result<
    Backend,
    FqError,
>)
    ensures
        outcome_view(backend) == planned(views(mounts@), path@, id, group),
        backend matches Ok(b) ==> b.well_formed(),
{
    match resolve(mounts, path) {
        Ok(mount) => backend_for(mount, path, id, group),
        Err(e) => Err(e),
    }
}

/// Starts a query: from what the caller could read of the mount table to
/// the backend that has to be asked.
///
/// `table` is the text of the mount table, or the operating system's error
/// code where it could not be read; such a failure is `IoFailure` with that
/// code. `path` is the canonical form of the path asked about. The query
/// is about `requested`, or about `own`, the caller's own identity, where
/// no identity is requested; `group` says whether identities are groups.
pub fn start(
    table: Result<&str, i32>,
    path: &str,
    requested: Option<u32>,
    own: u32,
    group: bool,
) -> (backend: Result<Backend, FqError>)
    ensures
        outcome_view(backend) == started(text_of(table), path@, requested, own, group),
        backend matches Ok(b) ==> b.well_formed(),
{
    match table {
        Ok(text) => {
            let mounts = read_mtab(text);
            plan(&mounts, path, effective_identity(requested, own), group)
        },
        Err(code) => Err(FqError::from_os_error(code)),
    }
}

/// Decides [`concludable`].
pub fn can_conclude(output: &BackendOutput) -> (b: bool)
    ensures
        b == concludable(*output),
{
    match output {
        BackendOutput::Stat(Ok(stats)) => stats.is_representable(),
        _ => true,
    }
}

/// Folds the raw output of whichever backend was asked into the answer of
/// the query. No backend's own notion of failure gets past this point.
pub fn conclude(output: BackendOutput) -> (result: Result<QuotaRecord, FqError>)
    requires
        concludable(output),
    ensures
        result == conclusion(output),
{
    match output {
        BackendOutput::Local { status, counters, os_error } => get_quota(
            status,
            counters,
            os_error,
        ),
        BackendOutput::Remote(outcome) => get_remote_quota(outcome),
        BackendOutput::Stat(outcome) => statvfs(outcome),
    }
}

} // verus!
