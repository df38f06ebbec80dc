//! The backend that delegates signing to the wallet of an Elements node.
//!
//! The wallet is reached over the node's RPC channel. This backend sends one
//! `signrawtransactionwithwallet` call per transaction and never retries.

use vstd::prelude::*;
use vstd::string::StringExecFns;
use crate::json::{bool_member, encoded_member, json_view, read_bool, read_encoded, read_text, text_member, Json};
use crate::rpc::{sign_request_view, ElementsRpc, Endpoint, RequestView, RpcRequest};
use crate::signer::error::{outcome_view, ErrorKind, SignerError};
use crate::signer::validation::{validate_unsigned, validation_failure};
use crate::signer::{Signer, SignerKind, SignTask};

verus! {

/// The detail reported when the response has no signed transaction text.
pub open spec fn missing_hex_detail() -> Seq<char> {
    "Node signing result missing 'hex' field"@
}

/// The detail reported when the wallet did not sign every input, given the
/// JSON text of the response's `errors` member where there is one.
pub open spec fn incomplete_detail(errors: Option<Seq<char>>) -> Seq<char> {
    "Transaction signing incomplete. The node's wallet may be missing required keys. Errors: "@
        + match errors {
        Some(text) => text,
        None => "Unknown errors"@,
    }
}

/// The detail reported when the channel or the wallet failed, given what the
/// transport said.
pub open spec fn remote_failure_detail(cause: Seq<char>) -> Seq<char> {
    "Node wallet signing failed: "@ + cause
        + ". Ensure wallet is unlocked and contains required keys."@
}

/// The outcome of signing, from what the response holds: the signed text only
/// where it is present and the wallet reports that it signed every input.
/// A missing `complete` counts as `false`.
pub open spec fn response_outcome(
    hex: Option<Seq<char>>,
    complete: Option<bool>,
    errors: Option<Seq<char>>,
) -> Result<Seq<char>, (ErrorKind, Seq<char>)> {
    match hex {
        None => Err((ErrorKind::InvalidTransaction, missing_hex_detail())),
        Some(signed) => if complete == Some(true) {
            Ok(signed)
        } else {
            Err((ErrorKind::InvalidTransaction, incomplete_detail(errors)))
        },
    }
}

/// The outcome of signing, from what came back on the channel: a response
/// document, or the transport's account of a failure.
pub open spec fn reply_outcome(reply: Result<Json, Seq<char>>) -> Result<Seq<char>, (ErrorKind, Seq<char>)> {
    match reply {
        Ok(response) => response_outcome(
            text_member(response, "hex"@),
            bool_member(response, "complete"@),
            encoded_member(response, "errors"@),
        ),
        Err(cause) => Err((ErrorKind::RemoteSigningFailure, remote_failure_detail(cause))),
    }
}

/// What this backend reads from the wallet's response.
#[derive(Debug, PartialEq, Eq)]
pub struct SignResponse {
    /// The member `hex`, where it is a JSON string: the signed transaction.
    pub hex: Option<String>,
    /// The member `complete`, where it is a JSON boolean: whether every input
    /// was signed.
    pub complete: Option<bool>,
    /// The member `errors` as JSON text, where it is present.
    pub errors: Option<String>,
}

/// An optional text as contracts see it.
pub open spec fn text_view(text: Option<String>) -> Option<Seq<char>> {
    match text {
        Some(s) => Some(s@),
        None => None,
    }
}

impl SignResponse {
    /// Reads the three members from a response document.
    pub fn read(response: &serde_json::Value) -> (r: Self)
        ensures
            text_view(r.hex) == text_member(json_view(*response), "hex"@),
            r.complete == bool_member(json_view(*response), "complete"@),
            text_view(r.errors) == encoded_member(json_view(*response), "errors"@),
    {
        SignResponse {
            hex: read_text(response, "hex"),
            complete: read_bool(response, "complete"),
            errors: read_encoded(response, "errors"),
        }
    }

    /// Decides the outcome of signing. There is no partial success: either
    /// the signed transaction comes back, or a failure does.
    pub fn outcome(self) -> (r: Result<String, SignerError>)
        ensures
            outcome_view(r) == response_outcome(text_view(self.hex), self.complete, text_view(self.errors)),
    {
        let signed = match self.hex {
            Some(signed) => signed,
            None => {
                return Err(SignerError::InvalidTransaction("Node signing result missing 'hex' field".to_string()));
            },
        };
        let complete = match self.complete {
            Some(complete) => complete,
            None => false,
        };
        if !complete {
            let mut detail = String::from_str(
                "Transaction signing incomplete. The node's wallet may be missing required keys. Errors: ",
            );
            match self.errors {
                Some(text) => detail.append(text.as_str()),
                None => detail.append("Unknown errors"),
            }
            return Err(SignerError::InvalidTransaction(detail));
        }
        Ok(signed)
    }
}

/// A reply on the channel as contracts see it.
pub open spec fn reply_view(reply: Result<serde_json::Value, String>) -> Result<Json, Seq<char>> {
    match reply {
        Ok(response) => Ok(json_view(response)),
        Err(cause) => Err(cause@),
    }
}

/// What the first half of signing returns, as contracts see it.
pub open spec fn request_view(r: Result<RpcRequest, SignerError>) -> Result<RequestView, (ErrorKind, Seq<char>)> {
    match r {
        Ok(request) => Ok(request@),
        Err(e) => Err(e@),
    }
}

/// A whole signing exchange: the calls issued on the channel, in order, and
/// the outcome handed to the caller.
pub struct Exchange {
    pub calls: Seq<RequestView>,
    pub outcome: Result<Seq<char>, (ErrorKind, Seq<char>)>,
}

/// A signer that delegates to the wallet of an Elements node.
///
/// The handle holds the descriptor of the node's RPC channel and nothing
/// else. A clone describes the same endpoint.
pub struct ElementsRpcSigner {
    rpc: ElementsRpc,
}

impl View for ElementsRpcSigner {
    type V = Endpoint;

    closed spec fn view(&self) -> Endpoint {
        self.rpc@
    }
}

impl ElementsRpcSigner {
    /// A signer for the wallet of the node that `rpc` describes.
    pub fn new(rpc: ElementsRpc) -> (signer: Self)
        ensures
            signer@ == rpc@,
    {
        ElementsRpcSigner { rpc }
    }

    /// The descriptor of the node's RPC channel.
    pub fn rpc(&self) -> (rpc: &ElementsRpc)
        ensures
            rpc@ == self@,
    {
        &self.rpc
    }

    /// What [`Self::sign_request`] decides: the failure of the shared checks,
    /// or the wallet's signing call for the text.
    pub open spec fn request_for(&self, unsigned_tx: Seq<char>) -> Result<RequestView, (ErrorKind, Seq<char>)> {
        match validation_failure(unsigned_tx) {
            Some(e) => Err(e),
            None => Ok(sign_request_view(unsigned_tx)),
        }
    }

    /// What [`Self::sign_outcome`] decides for a reply.
    pub open spec fn outcome_for(&self, reply: Result<Json, Seq<char>>) -> Result<Seq<char>, (ErrorKind, Seq<char>)> {
        reply_outcome(reply)
    }

    /// The exchange that signing `unsigned_tx` amounts to on a channel that
    /// answers `reply` to the call: no call for a rejected input, one call
    /// otherwise, and never a second.
    pub open spec fn exchange(&self, unsigned_tx: Seq<char>, reply: Result<Json, Seq<char>>) -> Exchange {
        match self.request_for(unsigned_tx) {
            Err(e) => Exchange { calls: Seq::empty(), outcome: Err(e) },
            Ok(request) => Exchange { calls: seq![request], outcome: self.outcome_for(reply) },
        }
    }

    /// The first half of signing: checks the transaction text and, where it
    /// passes, makes the one call to issue. The call depends on the text
    /// alone: nothing of the channel's descriptor enters it.
    pub fn sign_request(&self, unsigned_tx: &str) -> (r: Result<RpcRequest, SignerError>)
        ensures
            request_view(r) == self.request_for(unsigned_tx@),
    {
        match validate_unsigned(unsigned_tx) {
            Ok(_) => Ok(RpcRequest::sign(unsigned_tx)),
            Err(e) => Err(e),
        }
    }

    /// The second half of signing: reads what came back on the channel, a
    /// response document or the transport's account of a failure.
    pub fn sign_outcome(&self, reply: Result<serde_json::Value, String>) -> (r: Result<String, SignerError>)
        ensures
            outcome_view(r) == self.outcome_for(reply_view(reply)),
    {
        match reply {
            Ok(response) => SignResponse::read(&response).outcome(),
            Err(cause) => {
                let mut detail = String::from_str("Node wallet signing failed: ");
                detail.append(cause.as_str());
                detail.append(". Ensure wallet is unlocked and contains required keys.");
                Err(SignerError::RemoteSigningFailure(detail))
            },
        }
    }

    /// Signs over a channel that answers while the caller waits: the checks,
    /// then one call of `channel` with the request, then the reading of its
    /// reply. A rejected input returns before the channel is touched, and the
    /// channel, being `FnOnce`, cannot be called a second time.
    pub fn sign_with<F>(&self, unsigned_tx: &str, channel: F) -> (r: Result<String, SignerError>)
        where F: FnOnce(&RpcRequest) -> Result<serde_json::Value, String>
        requires
            forall|request: RpcRequest|
                request@ == sign_request_view(unsigned_tx@) ==> #[trigger] channel.requires((&request,)),
        ensures
            match self.request_for(unsigned_tx@) {
                Err(e) => outcome_view(r) == Err::<Seq<char>, (ErrorKind, Seq<char>)>(e),
                Ok(request) => exists|sent: RpcRequest, reply: Result<serde_json::Value, String>|
                    sent@ == request && #[trigger] channel.ensures((&sent,), reply) && outcome_view(r)
                        == self.exchange(unsigned_tx@, reply_view(reply)).outcome,
            },
    {
        let request = match self.sign_request(unsigned_tx) {
            Ok(request) => request,
            Err(e) => {
                return Err(e);
            },
        };
        let reply = channel(&request);
        let ghost answered = reply;
        let r = self.sign_outcome(reply);
        proof {
            assert(channel.ensures((&request,), answered));
        }
        r
    }
}

impl Clone for ElementsRpcSigner {
    /// A second handle on the same endpoint.
    fn clone(&self) -> (copy: Self)
        ensures
            copy@ == self@,
    {
        ElementsRpcSigner { rpc: self.rpc.clone() }
    }
}

impl Signer for ElementsRpcSigner {
    open spec fn backend(&self) -> SignerKind {
        SignerKind::RemoteDelegated
    }

    fn kind(&self) -> (k: SignerKind) {
        SignerKind::RemoteDelegated
    }

    fn begin_sign(&self, unsigned_tx: &str) -> (r: Result<SignTask, SignerError>) {
        match self.sign_request(unsigned_tx) {
            Ok(request) => Ok(SignTask::RemoteCall(request)),
            Err(e) => Err(e),
        }
    }
}

} // verus!
