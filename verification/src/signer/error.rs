//! The closed set of failures shared by all signing backends.

use vstd::prelude::*;
use vstd::string::StringExecFns;

verus! {

/// Which kind of failure a [`SignerError`] reports.
#[derive(Debug, Clone, Copy, PartialEq, Eq, Structural)]
pub enum ErrorKind {
    /// The input failed structural validation, the response was malformed, or
    /// signing finished without signing every input.
    InvalidTransaction,
    /// The remote channel or the remote wallet failed to process the request.
    RemoteSigningFailure,
    /// A key-management routine outside this library reported a failure.
    WrappedLibraryError,
    /// The transaction text is not well-formed hexadecimal.
    EncodingError,
}

/// A typed signing failure: its kind and a human-readable detail.
#[derive(Debug, PartialEq, Eq)]
pub enum SignerError {
    InvalidTransaction(String),
    RemoteSigningFailure(String),
    WrappedLibraryError(String),
    EncodingError(String),
}

impl View for SignerError {
    type V = (ErrorKind, Seq<char>);

    open spec fn view(&self) -> (ErrorKind, Seq<char>) {
        match self {
            SignerError::InvalidTransaction(d) => (ErrorKind::InvalidTransaction, d@),
            SignerError::RemoteSigningFailure(d) => (ErrorKind::RemoteSigningFailure, d@),
            SignerError::WrappedLibraryError(d) => (ErrorKind::WrappedLibraryError, d@),
            SignerError::EncodingError(d) => (ErrorKind::EncodingError, d@),
        }
    }
}

/// How a kind of failure is called in messages.
pub open spec fn kind_label(kind: ErrorKind) -> Seq<char> {
    match kind {
        ErrorKind::InvalidTransaction => "Invalid transaction"@,
        ErrorKind::RemoteSigningFailure => "Remote signing failed"@,
        ErrorKind::WrappedLibraryError => "Key management error"@,
        ErrorKind::EncodingError => "Hex parsing error"@,
    }
}

/// The message of a failure: what kind it is, then its detail.
pub open spec fn message_of(failure: (ErrorKind, Seq<char>)) -> Seq<char> {
    kind_label(failure.0) + ": "@ + failure.1
}

impl ErrorKind {
    /// How this kind of failure is called in messages.
    pub fn label(&self) -> (l: &'static str)
        ensures
            l@ == kind_label(*self),
    {
        match self {
            ErrorKind::InvalidTransaction => "Invalid transaction",
            ErrorKind::RemoteSigningFailure => "Remote signing failed",
            ErrorKind::WrappedLibraryError => "Key management error",
            ErrorKind::EncodingError => "Hex parsing error",
        }
    }
}

impl SignerError {
    /// The message to show for this failure.
    pub fn message(&self) -> (m: String)
        ensures
            m@ == message_of(self@),
    {
        let mut text = String::from_str(self.kind().label());
        text.append(": ");
        text.append(self.detail());
        text
    }

    /// The kind of this failure.
    pub fn kind(&self) -> (k: ErrorKind)
        ensures
            k == self@.0,
    {
        match self {
            SignerError::InvalidTransaction(_) => ErrorKind::InvalidTransaction,
            SignerError::RemoteSigningFailure(_) => ErrorKind::RemoteSigningFailure,
            SignerError::WrappedLibraryError(_) => ErrorKind::WrappedLibraryError,
            SignerError::EncodingError(_) => ErrorKind::EncodingError,
        }
    }

    /// The detail carried by this failure.
    pub fn detail(&self) -> (d: &str)
        ensures
            d@ == self@.1,
    {
        match self {
            SignerError::InvalidTransaction(d) => d.as_str(),
            SignerError::RemoteSigningFailure(d) => d.as_str(),
            SignerError::WrappedLibraryError(d) => d.as_str(),
            SignerError::EncodingError(d) => d.as_str(),
        }
    }
}

impl Clone for SignerError {
    /// The same failure once more.
    fn clone(&self) -> (copy: Self)
        ensures
            copy@ == self@,
    {
        match self {
            SignerError::InvalidTransaction(d) => SignerError::InvalidTransaction(d.clone()),
            SignerError::RemoteSigningFailure(d) => SignerError::RemoteSigningFailure(d.clone()),
            SignerError::WrappedLibraryError(d) => SignerError::WrappedLibraryError(d.clone()),
            SignerError::EncodingError(d) => SignerError::EncodingError(d.clone()),
        }
    }
}

/// The outcome of a signing operation as contracts see it: the signed text, or
/// the kind and detail of the failure.
pub open spec fn outcome_view(r: Result<String, SignerError>) -> Result<Seq<char>, (ErrorKind, Seq<char>)> {
    match r {
        Ok(signed) => Ok(signed@),
        Err(e) => Err(e@),
    }
}

} // verus!
