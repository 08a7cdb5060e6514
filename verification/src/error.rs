//! The error type shared by every fallible operation of the library.

use vstd::prelude::*;
use vstd::std_specs::convert::FromSpecImpl;

verus! {

/// What went wrong, by meaning rather than by wording.
#[derive(Debug, Clone, Copy, PartialEq, Eq, Structural)]
pub enum ErrorKind {
    /// The configuration is unreadable or invalid, or a path cannot be represented.
    Config,
    /// A filesystem or socket operation failed.
    Io,
    /// A key file that should be passphrase-wrapped holds another kind of envelope.
    NotPassphraseWrapped,
    /// The passphrase is wrong, the ciphertext is corrupt, or the key does not fit.
    Decrypt,
    /// A message or a record is not the JSON that was expected.
    Malformed,
    /// The peer speaks another version of the agent protocol.
    VersionMismatch,
    /// The peer is not the user that the agent serves.
    Auth,
    /// The agent holds no key for the public key that was asked for.
    Query,
    /// The store holds no record under the label.
    NoSuchRecord,
    /// No agent could be reached.
    Unreachable,
    /// The request of the user cannot be carried out as it was made.
    Usage,
}

/// An error: its kind, and the message that is shown to the user.
#[derive(Debug, Clone)]
pub struct Error {
    /// The kind of the error.
    pub kind: ErrorKind,
    /// The message of the error.
    pub message: String,
}

impl Error {
    /// Makes an error of kind `kind` that says `message`.
    pub fn new(kind: ErrorKind, message: &str) -> (err: Error)
        ensures
            err.kind == kind,
            err.message@ == message@,
    {
        Error { kind, message: message.to_owned() }
    }

    /// The message of this error, as `Display` would give it.
    pub fn to_string(&self) -> (msg: String)
        ensures
            msg@ == self.message@,
    {
        self.message.clone()
    }
}

impl View for Error {
    type V = (ErrorKind, Seq<char>);

    open spec fn view(&self) -> (ErrorKind, Seq<char>) {
        (self.kind, self.message@)
    }
}

/// What `r` holds, as mathematical values.
pub open spec fn outcome<T: View>(r: Result<T, Error>) -> Result<T::V, (ErrorKind, Seq<char>)> {
    match r {
        Ok(value) => Ok(value@),
        Err(e) => Err(e@),
    }
}

impl From<String> for Error {
    fn from(err: String) -> (e: Error) {
        Error { kind: ErrorKind::Usage, message: err }
    }
}

impl FromSpecImpl<String> for Error {
    open spec fn obeys_from_spec() -> bool {
        true
    }

    open spec fn from_spec(err: String) -> Error {
        Error { kind: ErrorKind::Usage, message: err }
    }
}

} // verus!
