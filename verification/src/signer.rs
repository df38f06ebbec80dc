//! The signing capability and its backends.
//!
//! Signing is an exchange with a collaborator outside this library: a remote
//! wallet, or a key-management routine. A backend decides what happens before
//! and after that exchange. [`Signer::begin_sign`] is the first decision and
//! is the same for every backend up to the task it hands out; the second is
//! `sign_outcome` on each backend, which reads what its collaborator reported.

use vstd::prelude::*;
use crate::rpc::{sign_request_view, RequestView, RpcRequest};
use crate::signer::error::{ErrorKind, SignerError};
use crate::signer::validation::{encoding_failure, validation_failure};

pub mod error;
pub mod laws;
pub mod local;
pub mod node;
pub mod validation;

pub use local::LocalKeySigner;
pub use node::ElementsRpcSigner;

verus! {

/// The closed set of backends.
#[derive(Debug, Clone, Copy, PartialEq, Eq, Structural)]
pub enum SignerKind {
    /// Signing is delegated to the wallet of a remote node.
    RemoteDelegated,
    /// Signing uses key material held in this process.
    LocalKey,
}

/// What [`SignTask`] holds, as a mathematical value.
pub enum TaskView {
    RemoteCall(RequestView),
    LocalSign(Seq<char>),
}

/// The work that a backend needs done outside this library before the
/// outcome of signing is known.
#[derive(Debug)]
pub enum SignTask {
    /// Issue this call on the RPC channel, once, and hand the reply to
    /// [`ElementsRpcSigner::sign_outcome`].
    RemoteCall(RpcRequest),
    /// Run the key-management routine on this transaction text and hand its
    /// result to [`LocalKeySigner::sign_outcome`].
    LocalSign(String),
}

impl View for SignTask {
    type V = TaskView;

    open spec fn view(&self) -> TaskView {
        match self {
            SignTask::RemoteCall(request) => TaskView::RemoteCall(request@),
            SignTask::LocalSign(unsigned_tx) => TaskView::LocalSign(unsigned_tx@),
        }
    }
}

/// What the first half of signing returns, as contracts see it.
pub open spec fn begin_view(r: Result<SignTask, SignerError>) -> Result<TaskView, (ErrorKind, Seq<char>)> {
    match r {
        Ok(task) => Ok(task@),
        Err(e) => Err(e@),
    }
}

/// What the first half of signing decides for a backend of the given kind.
///
/// The shared checks come first, whatever the backend. Past them, the remote
/// backend asks the wallet to sign the text as it stands; the local backend,
/// which has the text decoded in this process, also rejects anything that is
/// not hexadecimal.
pub open spec fn begin_outcome(kind: SignerKind, unsigned_tx: Seq<char>) -> Result<TaskView, (ErrorKind, Seq<char>)> {
    match validation_failure(unsigned_tx) {
        Some(e) => Err(e),
        None => match kind {
            SignerKind::RemoteDelegated => Ok(TaskView::RemoteCall(sign_request_view(unsigned_tx))),
            SignerKind::LocalKey => match encoding_failure(unsigned_tx) {
                Some(e) => Err(e),
                None => Ok(TaskView::LocalSign(unsigned_tx)),
            },
        },
    }
}

/// The calls that signing `unsigned_tx` issues on an RPC channel: one for
/// the remote backend on an input that passes the checks, none otherwise.
pub open spec fn rpc_calls(kind: SignerKind, unsigned_tx: Seq<char>) -> Seq<RequestView> {
    match begin_outcome(kind, unsigned_tx) {
        Ok(TaskView::RemoteCall(request)) => seq![request],
        _ => Seq::empty(),
    }
}

/// The capability that every signing backend offers.
pub trait Signer {
    /// The backend behind this handle.
    spec fn backend(&self) -> SignerKind;

    /// Tells which backend is behind this handle. It is meant for diagnostics:
    /// nothing in this library branches on it.
    fn kind(&self) -> (k: SignerKind)
        ensures
            k == self.backend(),
    ;

    /// The first half of signing: the shared checks, then the task for the
    /// backend's collaborator. A rejected input yields no task, so no backend
    /// can reach its collaborator with an input that was not checked.
    fn begin_sign(&self, unsigned_tx: &str) -> (r: Result<SignTask, SignerError>)
        ensures
            begin_view(r) == begin_outcome(self.backend(), unsigned_tx@),
    ;
}

} // verus!
