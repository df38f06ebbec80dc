//! The RPC channel of an Elements node, as this library sees it: where the
//! node is, and what is asked of it. The transport itself is the caller's.

use vstd::prelude::*;
use crate::signer::validation::well_formed;

verus! {

/// What an [`ElementsRpc`] holds, as a mathematical value.
pub struct Endpoint {
    pub base_url: Seq<char>,
    pub username: Seq<char>,
    pub password: Seq<char>,
}

/// The descriptor of a node's RPC channel: its base URL and the credentials
/// to present. It describes an endpoint; it is not a connection.
pub struct ElementsRpc {
    base_url: String,
    username: String,
    password: String,
}

impl View for ElementsRpc {
    type V = Endpoint;

    closed spec fn view(&self) -> Endpoint {
        Endpoint { base_url: self.base_url@, username: self.username@, password: self.password@ }
    }
}

impl ElementsRpc {
    /// Describes the channel to the node at `base_url`.
    pub fn new(base_url: String, username: String, password: String) -> (rpc: Self)
        ensures
            rpc@ == (Endpoint { base_url: base_url@, username: username@, password: password@ }),
    {
        ElementsRpc { base_url, username, password }
    }

    /// The base URL of the node.
    pub fn base_url(&self) -> (url: &str)
        ensures
            url@ == self@.base_url,
    {
        self.base_url.as_str()
    }

    /// The user name presented to the node.
    pub fn username(&self) -> (name: &str)
        ensures
            name@ == self@.username,
    {
        self.username.as_str()
    }

    /// The password presented to the node.
    pub fn password(&self) -> (secret: &str)
        ensures
            secret@ == self@.password,
    {
        self.password.as_str()
    }
}

impl Clone for ElementsRpc {
    /// A second descriptor of the same endpoint.
    fn clone(&self) -> (copy: Self)
        ensures
            copy@ == self@,
    {
        ElementsRpc {
            base_url: self.base_url.clone(),
            username: self.username.clone(),
            password: self.password.clone(),
        }
    }
}

/// What an [`RpcRequest`] holds, as a mathematical value.
pub struct RequestView {
    pub method: Seq<char>,
    pub params: Seq<Seq<char>>,
}

/// The name of the call that asks the node's wallet to sign a transaction.
pub open spec fn sign_method() -> Seq<char> {
    "signrawtransactionwithwallet"@
}

/// The one request that signing `unsigned_tx` sends: the wallet's signing
/// call with the transaction text as its sole positional argument.
pub open spec fn sign_request_view(unsigned_tx: Seq<char>) -> RequestView {
    RequestView { method: sign_method(), params: seq![unsigned_tx] }
}

/// A call to issue on the RPC channel: a method name and its positional
/// arguments.
///
/// A request is only ever made for a transaction text that passed the shared
/// checks, so holding one is evidence that validation took place.
#[derive(Debug)]
pub struct RpcRequest {
    method: String,
    params: Vec<String>,
}

impl View for RpcRequest {
    type V = RequestView;

    closed spec fn view(&self) -> RequestView {
        RequestView { method: self.method@, params: self.params.deep_view() }
    }
}

impl RpcRequest {
    /// Every request is the signing call for a text that passed the shared
    /// checks.
    #[verifier::type_invariant]
    spec fn valid(&self) -> bool {
        &&& self.params@.len() == 1
        &&& well_formed(self.params@[0]@)
        &&& self@ == sign_request_view(self.params@[0]@)
    }

    /// The request that asks the wallet to sign a checked transaction text.
    pub(crate) fn sign(unsigned_tx: &str) -> (request: Self)
        requires
            well_formed(unsigned_tx@),
        ensures
            request@ == sign_request_view(unsigned_tx@),
    {
        let mut params: Vec<String> = Vec::new();
        params.push(unsigned_tx.to_owned());
        let method = "signrawtransactionwithwallet".to_string();
        proof {
            assert(params.deep_view() =~= seq![unsigned_tx@]);
        }
        RpcRequest { method, params }
    }

    /// The name of the remote procedure.
    pub fn method(&self) -> (name: &str)
        ensures
            name@ == self@.method,
    {
        self.method.as_str()
    }

    /// The positional arguments of the call.
    pub fn params(&self) -> (args: &Vec<String>)
        ensures
            args.deep_view() == self@.params,
    {
        &self.params
    }

    /// The transaction text that this request asks to have signed. It has
    /// passed the shared checks, and the request is exactly the signing call
    /// for it.
    pub fn unsigned_tx(&self) -> (tx: &str)
        ensures
            well_formed(tx@),
            self@ == sign_request_view(tx@),
    {
        proof {
            use_type_invariant(self);
        }
        self.params[0].as_str()
    }
}

} // verus!
