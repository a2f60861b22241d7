//! The remote quota backend: what to ask an NFS server's quota service, and
//! what its answer means.

use crate::error::FqError;
use crate::quota::{normalize, normalized, QuotaRecord, RawCounters};
use vstd::prelude::*;

verus! {

/// One request to a remote quota service, ready to be sent.
#[derive(Clone, Debug, PartialEq, Eq)]
pub struct RemoteCall {
    /// The server to ask.
    pub host: String,
    /// The path the server exports.
    pub export: String,
    /// The identity to ask about.
    pub id: u32,
    /// Whether the identity is a group rather than a user.
    pub group: bool,
}

/// What a [`RemoteCall`] says, as plain values.
pub struct RemoteCallView {
    pub host: Seq<char>,
    pub export: Seq<char>,
    pub id: u32,
    pub group: bool,
}

impl View for RemoteCall {
    type V = RemoteCallView;

    open spec fn view(&self) -> RemoteCallView {
        RemoteCallView { host: self.host@, export: self.export@, id: self.id, group: self.group }
    }
}

/// How one request to a remote quota service ended.
#[derive(Clone, Copy, Debug, PartialEq, Eq, Structural)]
pub enum RemoteOutcome {
    /// The service answered with usage and limits, in bytes and files.
    Counters(RawCounters),
    /// The service answered that the identity has no quota.
    NoQuota,
    /// The service answered, but not with a reply of the protocol.
    Malformed,
    /// No answer arrived: the service could not be reached, or the
    /// transport failed on the way.
    TransportFailure,
}

/// What the outcome of a remote request means.
pub open spec fn remote_result(outcome: RemoteOutcome) -> Result<QuotaRecord, FqError> {
    match outcome {
        RemoteOutcome::Counters(counters) => Ok(normalized(counters)),
        RemoteOutcome::NoQuota => Err(FqError::NoQuota),
        RemoteOutcome::Malformed => Err(FqError::RpcFailure),
        RemoteOutcome::TransportFailure => Err(FqError::RpcFailure),
    }
}

/// Prepares the request for an export of `host`.
pub fn remote_call(host: &str, export: &str, id: u32, group: bool) -> (call: RemoteCall)
    ensures
        call@ == (RemoteCallView { host: host@, export: export@, id, group }),
{
    RemoteCall { host: host.to_owned(), export: export.to_owned(), id, group }
}

/// Folds the outcome of a remote request into a record or an error.
///
/// Counters are normalized as those of the local backend are: a limit of
/// all ones becomes an absent limit. A failed transport and a malformed
/// reply are both `RpcFailure`; nothing is retried.
pub fn get_remote_quota(outcome: RemoteOutcome) -> (result: Result<QuotaRecord, FqError>)
    ensures
        result == remote_result(outcome),
        result matches Ok(record) ==> record.sentinel_free(),
{
    match outcome {
        RemoteOutcome::Counters(counters) => Ok(normalize(counters)),
        RemoteOutcome::NoQuota => Err(FqError::NoQuota),
        RemoteOutcome::Malformed => Err(FqError::RpcFailure),
        RemoteOutcome::TransportFailure => Err(FqError::RpcFailure),
    }
}

} // verus!
