//! The library's error type.

use vstd::prelude::*;

verus! {

/// Why an operation of this library failed.
#[derive(Clone, Copy, Debug, PartialEq, Eq, Structural, Hash)]
pub enum Error {
    /// An internal OPAQUE failure that is not classified further.
    Opaque,
    /// The server's public key differs from the one the client expected.
    InvalidServer,
    /// An MHF parameter is out of range.
    MhfConfig,
    /// Two objects that must share a [`Config`](crate::Config) do not.
    Config,
    /// The expected public keys of a [`ClientConfig`](crate::ClientConfig)
    /// and a [`ClientFile`](crate::ClientFile) disagree.
    ConfigPublicKey,
    /// The login could not be verified: wrong password, unknown user or a
    /// server file that does not fit.
    Credentials,
    /// The [`ServerFile`](crate::ServerFile) was made under another
    /// [`ServerConfig`](crate::ServerConfig).
    ServerFile,
}

} // verus!
