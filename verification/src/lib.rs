//! Transaction signing for Elements/Liquid behind one capability, with the
//! decisions of every backend verified.
//!
//! A signer never performs I/O here. Each backend is split into the decisions
//! it takes: what to check, what to ask of its collaborator, and how to read
//! the collaborator's answer. The caller drives the exchange.

pub mod json;
pub mod rpc;
pub mod signer;

pub use rpc::ElementsRpc;
pub use signer::error::SignerError;
pub use signer::local::LocalKeySigner;
pub use signer::node::ElementsRpcSigner;
pub use signer::Signer;
