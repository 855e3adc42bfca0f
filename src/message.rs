//! Messages passed between client and server. Each carries the
//! [`Config`] it was made under beside the OPAQUE payload.

use vstd::prelude::*;

use crate::config::Config;
use crate::encoding::{
    lemma_tagged_round_trip, read_tagged, take_tagged, tagged_encoding, write_tagged,
};

verus! {

/// Sent by the client to start a registration; see
/// [`ServerRegistration::register`](crate::ServerRegistration::register).
#[derive(Clone, Debug, PartialEq, Eq)]
pub struct RegistrationRequest {
    config: Config,
    message: Vec<u8>,
}

impl RegistrationRequest {
    /// The configuration the message was made under.
    pub closed spec fn spec_config(self) -> Config {
        self.config
    }

    /// The OPAQUE payload.
    pub closed spec fn spec_payload(self) -> Seq<u8> {
        self.message@
    }

    /// Tags a payload with its configuration.
    pub(crate) fn new(config: Config, message: Vec<u8>) -> (r: Self)
        ensures
            r.spec_config() == config,
            r.spec_payload() == message@,
    {
        RegistrationRequest { config, message }
    }

    /// The configuration the message was made under.
    pub fn config(&self) -> (r: Config)
        ensures
            r == self.spec_config(),
    {
        self.config
    }

    /// The OPAQUE payload.
    pub(crate) fn payload(&self) -> (r: &[u8])
        ensures
            r@ == self.spec_payload(),
    {
        self.message.as_slice()
    }

    /// The encoding of the message: its [`Config`], then the payload with
    /// its length in front.
    pub fn encode(&self) -> (r: Vec<u8>)
        ensures
            r@ == tagged_encoding(self.spec_config(), self.spec_payload()),
            self.spec_config().wf(),
            read_tagged(r@) == Some((self.spec_config(), self.spec_payload())),
    {
        let r = write_tagged(&self.config, self.message.as_slice());
        proof {
            lemma_tagged_round_trip(self.config, self.message@);
        }
        r
    }

    /// Reads a message from its encoding; `None` unless `bytes` encode one
    /// message and nothing more.
    pub fn decode(bytes: &[u8]) -> (r: Option<Self>)
        ensures
            match (r, read_tagged(bytes@)) {
                (Some(m), Some((c, b))) => m.spec_config() == c && m.spec_payload() == b,
                (None, None) => true,
                _ => false,
            },
    {
        match take_tagged(bytes) {
            Some((config, message)) => Some(RegistrationRequest { config, message }),
            None => None,
        }
    }
}

/// Sent back by the server during a registration; see
/// [`ClientRegistration::finish`](crate::ClientRegistration::finish).
#[derive(Clone, Debug, PartialEq, Eq)]
pub struct RegistrationResponse {
    config: Config,
    message: Vec<u8>,
}

impl RegistrationResponse {
    /// The configuration the message was made under.
    pub closed spec fn spec_config(self) -> Config {
        self.config
    }

    /// The OPAQUE payload.
    pub closed spec fn spec_payload(self) -> Seq<u8> {
        self.message@
    }

    /// Tags a payload with its configuration.
    pub(crate) fn new(config: Config, message: Vec<u8>) -> (r: Self)
        ensures
            r.spec_config() == config,
            r.spec_payload() == message@,
    {
        RegistrationResponse { config, message }
    }

    /// The configuration the message was made under.
    pub fn config(&self) -> (r: Config)
        ensures
            r == self.spec_config(),
    {
        self.config
    }

    /// The OPAQUE payload.
    pub(crate) fn payload(&self) -> (r: &[u8])
        ensures
            r@ == self.spec_payload(),
    {
        self.message.as_slice()
    }

    /// The encoding of the message: its [`Config`], then the payload with
    /// its length in front.
    pub fn encode(&self) -> (r: Vec<u8>)
        ensures
            r@ == tagged_encoding(self.spec_config(), self.spec_payload()),
            self.spec_config().wf(),
            read_tagged(r@) == Some((self.spec_config(), self.spec_payload())),
    {
        let r = write_tagged(&self.config, self.message.as_slice());
        proof {
            lemma_tagged_round_trip(self.config, self.message@);
        }
        r
    }

    /// Reads a message from its encoding; `None` unless `bytes` encode one
    /// message and nothing more.
    pub fn decode(bytes: &[u8]) -> (r: Option<Self>)
        ensures
            match (r, read_tagged(bytes@)) {
                (Some(m), Some((c, b))) => m.spec_config() == c && m.spec_payload() == b,
                (None, None) => true,
                _ => false,
            },
    {
        match take_tagged(bytes) {
            Some((config, message)) => Some(RegistrationResponse { config, message }),
            None => None,
        }
    }
}

/// Sent by the client to finish a registration; see
/// [`ServerRegistration::finish`](crate::ServerRegistration::finish).
#[derive(Clone, Debug, PartialEq, Eq)]
pub struct RegistrationFinalization {
    config: Config,
    message: Vec<u8>,
}

impl RegistrationFinalization {
    /// The configuration the message was made under.
    pub closed spec fn spec_config(self) -> Config {
        self.config
    }

    /// The OPAQUE payload.
    pub closed spec fn spec_payload(self) -> Seq<u8> {
        self.message@
    }

    /// Tags a payload with its configuration.
    pub(crate) fn new(config: Config, message: Vec<u8>) -> (r: Self)
        ensures
            r.spec_config() == config,
            r.spec_payload() == message@,
    {
        RegistrationFinalization { config, message }
    }

    /// The configuration the message was made under.
    pub fn config(&self) -> (r: Config)
        ensures
            r == self.spec_config(),
    {
        self.config
    }

    /// The OPAQUE payload.
    pub(crate) fn payload(&self) -> (r: &[u8])
        ensures
            r@ == self.spec_payload(),
    {
        self.message.as_slice()
    }

    /// The encoding of the message: its [`Config`], then the payload with
    /// its length in front.
    pub fn encode(&self) -> (r: Vec<u8>)
        ensures
            r@ == tagged_encoding(self.spec_config(), self.spec_payload()),
            self.spec_config().wf(),
            read_tagged(r@) == Some((self.spec_config(), self.spec_payload())),
    {
        let r = write_tagged(&self.config, self.message.as_slice());
        proof {
            lemma_tagged_round_trip(self.config, self.message@);
        }
        r
    }

    /// Reads a message from its encoding; `None` unless `bytes` encode one
    /// message and nothing more.
    pub fn decode(bytes: &[u8]) -> (r: Option<Self>)
        ensures
            match (r, read_tagged(bytes@)) {
                (Some(m), Some((c, b))) => m.spec_config() == c && m.spec_payload() == b,
                (None, None) => true,
                _ => false,
            },
    {
        match take_tagged(bytes) {
            Some((config, message)) => Some(RegistrationFinalization { config, message }),
            None => None,
        }
    }
}

/// Sent by the client to start a login; see
/// [`ServerLogin::login`](crate::ServerLogin::login).
#[derive(Clone, Debug, PartialEq, Eq)]
pub struct LoginRequest {
    config: Config,
    message: Vec<u8>,
}

impl LoginRequest {
    /// The configuration the message was made under.
    pub closed spec fn spec_config(self) -> Config {
        self.config
    }

    /// The OPAQUE payload.
    pub closed spec fn spec_payload(self) -> Seq<u8> {
        self.message@
    }

    /// Tags a payload with its configuration.
    pub(crate) fn new(config: Config, message: Vec<u8>) -> (r: Self)
        ensures
            r.spec_config() == config,
            r.spec_payload() == message@,
    {
        LoginRequest { config, message }
    }

    /// The configuration the message was made under.
    pub fn config(&self) -> (r: Config)
        ensures
            r == self.spec_config(),
    {
        self.config
    }

    /// The OPAQUE payload.
    pub(crate) fn payload(&self) -> (r: &[u8])
        ensures
            r@ == self.spec_payload(),
    {
        self.message.as_slice()
    }

    /// The encoding of the message: its [`Config`], then the payload with
    /// its length in front.
    pub fn encode(&self) -> (r: Vec<u8>)
        ensures
            r@ == tagged_encoding(self.spec_config(), self.spec_payload()),
            self.spec_config().wf(),
            read_tagged(r@) == Some((self.spec_config(), self.spec_payload())),
    {
        let r = write_tagged(&self.config, self.message.as_slice());
        proof {
            lemma_tagged_round_trip(self.config, self.message@);
        }
        r
    }

    /// Reads a message from its encoding; `None` unless `bytes` encode one
    /// message and nothing more.
    pub fn decode(bytes: &[u8]) -> (r: Option<Self>)
        ensures
            match (r, read_tagged(bytes@)) {
                (Some(m), Some((c, b))) => m.spec_config() == c && m.spec_payload() == b,
                (None, None) => true,
                _ => false,
            },
    {
        match take_tagged(bytes) {
            Some((config, message)) => Some(LoginRequest { config, message }),
            None => None,
        }
    }
}

/// Sent back by the server during a login; see
/// [`ClientLogin::finish`](crate::ClientLogin::finish).
#[derive(Clone, Debug, PartialEq, Eq)]
pub struct LoginResponse {
    config: Config,
    message: Vec<u8>,
}

impl LoginResponse {
    /// The configuration the message was made under.
    pub closed spec fn spec_config(self) -> Config {
        self.config
    }

    /// The OPAQUE payload.
    pub closed spec fn spec_payload(self) -> Seq<u8> {
        self.message@
    }

    /// Tags a payload with its configuration.
    pub(crate) fn new(config: Config, message: Vec<u8>) -> (r: Self)
        ensures
            r.spec_config() == config,
            r.spec_payload() == message@,
    {
        LoginResponse { config, message }
    }

    /// The configuration the message was made under.
    pub fn config(&self) -> (r: Config)
        ensures
            r == self.spec_config(),
    {
        self.config
    }

    /// The OPAQUE payload.
    pub(crate) fn payload(&self) -> (r: &[u8])
        ensures
            r@ == self.spec_payload(),
    {
        self.message.as_slice()
    }

    /// The encoding of the message: its [`Config`], then the payload with
    /// its length in front.
    pub fn encode(&self) -> (r: Vec<u8>)
        ensures
            r@ == tagged_encoding(self.spec_config(), self.spec_payload()),
            self.spec_config().wf(),
            read_tagged(r@) == Some((self.spec_config(), self.spec_payload())),
    {
        let r = write_tagged(&self.config, self.message.as_slice());
        proof {
            lemma_tagged_round_trip(self.config, self.message@);
        }
        r
    }

    /// Reads a message from its encoding; `None` unless `bytes` encode one
    /// message and nothing more.
    pub fn decode(bytes: &[u8]) -> (r: Option<Self>)
        ensures
            match (r, read_tagged(bytes@)) {
                (Some(m), Some((c, b))) => m.spec_config() == c && m.spec_payload() == b,
                (None, None) => true,
                _ => false,
            },
    {
        match take_tagged(bytes) {
            Some((config, message)) => Some(LoginResponse { config, message }),
            None => None,
        }
    }
}

/// Sent by the client to finish a login; see
/// [`ServerLogin::finish`](crate::ServerLogin::finish).
#[derive(Clone, Debug, PartialEq, Eq)]
pub struct LoginFinalization {
    config: Config,
    message: Vec<u8>,
}

impl LoginFinalization {
    /// The configuration the message was made under.
    pub closed spec fn spec_config(self) -> Config {
        self.config
    }

    /// The OPAQUE payload.
    pub closed spec fn spec_payload(self) -> Seq<u8> {
        self.message@
    }

    /// Tags a payload with its configuration.
    pub(crate) fn new(config: Config, message: Vec<u8>) -> (r: Self)
        ensures
            r.spec_config() == config,
            r.spec_payload() == message@,
    {
        LoginFinalization { config, message }
    }

    /// The configuration the message was made under.
    pub fn config(&self) -> (r: Config)
        ensures
            r == self.spec_config(),
    {
        self.config
    }

    /// The OPAQUE payload.
    pub(crate) fn payload(&self) -> (r: &[u8])
        ensures
            r@ == self.spec_payload(),
    {
        self.message.as_slice()
    }

    /// The encoding of the message: its [`Config`], then the payload with
    /// its length in front.
    pub fn encode(&self) -> (r: Vec<u8>)
        ensures
            r@ == tagged_encoding(self.spec_config(), self.spec_payload()),
            self.spec_config().wf(),
            read_tagged(r@) == Some((self.spec_config(), self.spec_payload())),
    {
        let r = write_tagged(&self.config, self.message.as_slice());
        proof {
            lemma_tagged_round_trip(self.config, self.message@);
        }
        r
    }

    /// Reads a message from its encoding; `None` unless `bytes` encode one
    /// message and nothing more.
    pub fn decode(bytes: &[u8]) -> (r: Option<Self>)
        ensures
            match (r, read_tagged(bytes@)) {
                (Some(m), Some((c, b))) => m.spec_config() == c && m.spec_payload() == b,
                (None, None) => true,
                _ => false,
            },
    {
        match take_tagged(bytes) {
            Some((config, message)) => Some(LoginFinalization { config, message }),
            None => None,
        }
    }
}

} // verus!
