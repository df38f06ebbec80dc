//! The backend that signs with key material held in this process.
//!
//! The key material is a mnemonic phrase. Deriving keys from it and signing
//! with them is the work of a key-management routine outside this library;
//! this backend decides what happens around that routine.

use vstd::prelude::*;
use crate::signer::error::{outcome_view, ErrorKind, SignerError};
use crate::signer::validation::{check_hex, encoding_failure, validate_unsigned, validation_failure};
use crate::signer::{Signer, SignerKind, SignTask};

verus! {

/// The network whose transactions a local signer signs.
#[derive(Debug, Clone, Copy, PartialEq, Eq, Structural)]
pub enum Network {
    Mainnet,
    Testnet,
    Regtest,
}

/// What a [`LocalKeySigner`] holds, as a mathematical value.
pub struct KeyView {
    pub mnemonic: Seq<char>,
    pub network: Network,
    pub index: u32,
}

/// A signer that owns its key material: a mnemonic phrase, the network it is
/// used on, and the index at which its keys are derived. The network and the
/// index are fixed when the handle is made. The mnemonic stays as given until
/// it is taken out for disposal.
pub struct LocalKeySigner {
    mnemonic: String,
    network: Network,
    index: u32,
}

impl View for LocalKeySigner {
    type V = KeyView;

    closed spec fn view(&self) -> KeyView {
        KeyView { mnemonic: self.mnemonic@, network: self.network, index: self.index }
    }
}

/// The outcome of making a local signer, from what the key-management
/// routine said of the mnemonic and the derivation.
pub open spec fn construction_outcome(
    mnemonic: Seq<char>,
    network: Network,
    index: u32,
    derivation: Result<(), Seq<char>>,
) -> Result<KeyView, (ErrorKind, Seq<char>)> {
    match derivation {
        Ok(_) => Ok(KeyView { mnemonic, network, index }),
        Err(cause) => Err((ErrorKind::WrappedLibraryError, cause)),
    }
}

/// The outcome of signing, from what the key-management routine returned:
/// its signed text, or its failure with the message as it gave it.
pub open spec fn local_outcome(result: Result<Seq<char>, Seq<char>>) -> Result<Seq<char>, (ErrorKind, Seq<char>)> {
    match result {
        Ok(signed) => Ok(signed),
        Err(cause) => Err((ErrorKind::WrappedLibraryError, cause)),
    }
}

/// The routine's verdict on a derivation as contracts see it.
pub open spec fn derivation_view(derivation: Result<(), String>) -> Result<(), Seq<char>> {
    match derivation {
        Ok(_) => Ok(()),
        Err(cause) => Err(cause@),
    }
}

/// The routine's signing result as contracts see it.
pub open spec fn library_view(result: Result<String, String>) -> Result<Seq<char>, Seq<char>> {
    match result {
        Ok(signed) => Ok(signed@),
        Err(cause) => Err(cause@),
    }
}

/// What construction returns, as contracts see it.
pub open spec fn construction_view(r: Result<LocalKeySigner, SignerError>) -> Result<KeyView, (ErrorKind, Seq<char>)> {
    match r {
        Ok(signer) => Ok(signer@),
        Err(e) => Err(e@),
    }
}

impl LocalKeySigner {
    /// Makes a signer once the key-management routine has checked the
    /// mnemonic and derived the keys at `index` for `network`. Where the
    /// routine failed, so does construction, with the routine's message.
    pub fn from_derivation(
        mnemonic: String,
        network: Network,
        index: u32,
        derivation: Result<(), String>,
    ) -> (r: Result<Self, SignerError>)
        ensures
            construction_view(r) == construction_outcome(mnemonic@, network, index, derivation_view(derivation)),
    {
        match derivation {
            Ok(_) => Ok(LocalKeySigner { mnemonic, network, index }),
            Err(cause) => Err(SignerError::WrappedLibraryError(cause)),
        }
    }

    /// The mnemonic phrase. It is handed to the key-management routine and to
    /// nothing else.
    pub fn mnemonic(&self) -> (phrase: &str)
        ensures
            phrase@ == self@.mnemonic,
    {
        self.mnemonic.as_str()
    }

    /// The network chosen when the handle was made.
    pub fn network(&self) -> (network: Network)
        ensures
            network == self@.network,
    {
        self.network
    }

    /// The derivation index chosen when the handle was made.
    pub fn index(&self) -> (index: u32)
        ensures
            index == self@.index,
    {
        self.index
    }

    /// Takes the mnemonic phrase out of the handle, so that the caller can
    /// dispose of it. The handle keeps its network and index and holds no
    /// key material from here on.
    pub fn take_mnemonic(&mut self) -> (phrase: String)
        ensures
            phrase@ == old(self)@.mnemonic,
            final(self)@ == (KeyView {
                mnemonic: Seq::empty(),
                network: old(self)@.network,
                index: old(self)@.index,
            }),
    {
        let mut phrase = String::new();
        std::mem::swap(&mut self.mnemonic, &mut phrase);
        phrase
    }

    /// What [`Self::sign_input`] decides: the failure of the shared checks,
    /// then that of the hexadecimal check, or the text to sign.
    pub open spec fn input_for(&self, unsigned_tx: Seq<char>) -> Result<Seq<char>, (ErrorKind, Seq<char>)> {
        match validation_failure(unsigned_tx) {
            Some(e) => Err(e),
            None => match encoding_failure(unsigned_tx) {
                Some(e) => Err(e),
                None => Ok(unsigned_tx),
            },
        }
    }

    /// The first half of signing: checks the transaction text and, where it
    /// passes, returns it for the key-management routine. Nothing of the key
    /// material enters the result.
    pub fn sign_input(&self, unsigned_tx: &str) -> (r: Result<String, SignerError>)
        ensures
            outcome_view(r) == self.input_for(unsigned_tx@),
    {
        match validate_unsigned(unsigned_tx) {
            Ok(_) => match check_hex(unsigned_tx) {
                Ok(_) => Ok(unsigned_tx.to_owned()),
                Err(e) => Err(e),
            },
            Err(e) => Err(e),
        }
    }

    /// What [`Self::sign_outcome`] decides for a result of the routine.
    pub open spec fn outcome_for(&self, result: Result<Seq<char>, Seq<char>>) -> Result<Seq<char>, (ErrorKind, Seq<char>)> {
        local_outcome(result)
    }

    /// The second half of signing: reads what the key-management routine
    /// returned.
    pub fn sign_outcome(&self, result: Result<String, String>) -> (r: Result<String, SignerError>)
        ensures
            outcome_view(r) == self.outcome_for(library_view(result)),
    {
        match result {
            Ok(signed) => Ok(signed),
            Err(cause) => Err(SignerError::WrappedLibraryError(cause)),
        }
    }

    /// Signs with a routine that is called in place: the checks, then one
    /// call of `routine` with the checked text, then the reading of its
    /// result. A rejected input returns before the routine is touched, and
    /// the routine, being `FnOnce`, cannot be called a second time.
    pub fn sign_with<F>(&self, unsigned_tx: &str, routine: F) -> (r: Result<String, SignerError>)
        where F: FnOnce(&str) -> Result<String, String>
        requires
            forall|text: &str| text@ == unsigned_tx@ ==> #[trigger] routine.requires((text,)),
        ensures
            match self.input_for(unsigned_tx@) {
                Err(e) => outcome_view(r) == Err::<Seq<char>, (ErrorKind, Seq<char>)>(e),
                Ok(checked) => exists|text: &str, result: Result<String, String>|
                    text@ == checked && #[trigger] routine.ensures((text,), result) && outcome_view(r)
                        == self.outcome_for(library_view(result)),
            },
    {
        let checked = match self.sign_input(unsigned_tx) {
            Ok(checked) => checked,
            Err(e) => {
                return Err(e);
            },
        };
        let text = checked.as_str();
        let result = routine(text);
        let ghost returned = result;
        let r = self.sign_outcome(result);
        proof {
            assert(routine.ensures((text,), returned));
        }
        r
    }
}

impl Signer for LocalKeySigner {
    open spec fn backend(&self) -> SignerKind {
        SignerKind::LocalKey
    }

    fn kind(&self) -> (k: SignerKind) {
        SignerKind::LocalKey
    }

    fn begin_sign(&self, unsigned_tx: &str) -> (r: Result<SignTask, SignerError>) {
        match self.sign_input(unsigned_tx) {
            Ok(checked) => Ok(SignTask::LocalSign(checked)),
            Err(e) => Err(e),
        }
    }
}

} // verus!
