//! The server side of registration and login.

use vstd::prelude::*;

use crate::config::{server_setup_len, suite_code, Config};
use crate::encoding::{keyed_encoding, lemma_keyed_round_trip, read_keyed, take_keyed, write_keyed};
use crate::error::Error;
use crate::message::{
    LoginFinalization, LoginRequest, LoginResponse, RegistrationFinalization,
    RegistrationRequest, RegistrationResponse,
};
use crate::public_key::{copy_bytes, PublicKey};
use crate::registry;
use crate::suites::{
    login_accepted_of, login_start_outcome, registration_record_of, registration_response_of,
    response_server_key_of, setup_public_key_of,
};

verus! {

/// Server configuration: the [`Config`], the private key and the OPRF seed.
/// Losing it makes every [`ServerFile`] made under it useless.
#[derive(Debug, PartialEq, Eq)]
pub struct ServerConfig {
    config: Config,
    setup: Vec<u8>,
    public_key: PublicKey,
}

impl ServerConfig {
    #[verifier::type_invariant]
    spec fn inv(self) -> bool {
        &&& self.public_key.spec_config() == self.config
        &&& setup_public_key_of(suite_code(self.config.spec_suite()), self.setup@) == Some(
            self.public_key.spec_bytes(),
        )
    }

    /// The parts of the value: configuration, public key and the serialised
    /// OPAQUE server setup.
    pub closed spec fn model(self) -> (Config, (Config, Seq<u8>), Seq<u8>) {
        (self.config, self.public_key.model(), self.setup@)
    }

    /// The encoding: configuration, public key and OPAQUE server setup. It
    /// holds the private key: keep it secret.
    pub fn encode(&self) -> (r: Vec<u8>)
        ensures
            r@ == keyed_encoding(self.model().0, self.model().1, self.model().2),
            read_keyed(r@) == Some(self.model()),
            server_config_fits(self.model().0, self.model().1, self.model().2),
    {
        proof {
            use_type_invariant(self);
        }
        let r = write_keyed(&self.config, &self.public_key, self.setup.as_slice());
        proof {
            lemma_keyed_round_trip(self.model().0, self.model().1, self.model().2);
        }
        r
    }

    /// Reads a server configuration from its encoding; `None` unless `bytes`
    /// encode one whose key belongs to its configuration, and nothing more.
    /// The setup itself is checked when it is used.
    pub fn decode(bytes: &[u8]) -> (r: Option<Self>)
        ensures
            match (r, read_keyed(bytes@)) {
                (Some(x), Some((c, k, b))) => server_config_fits(c, k, b) && x.model() == (c, k, b),
                (None, Some((c, k, b))) => !server_config_fits(c, k, b),
                (None, None) => true,
                _ => false,
            },
    {
        match take_keyed(bytes) {
            Some((config, public_key, setup)) => {
                if public_key.config() != config {
                    return None;
                }
                match registry::setup_public_key(config.cipher_suite(), setup.as_slice()) {
                    Some(key) => {
                        if !public_key.is_encoding(key.as_slice()) {
                            return None;
                        }
                    },
                    None => return None,
                }
                Some(ServerConfig { config, setup, public_key })
            },
            None => None,
        }
    }

    /// The shared configuration.
    pub closed spec fn spec_config(self) -> Config {
        self.config
    }

    /// The server's public key.
    pub closed spec fn spec_public_key(self) -> PublicKey {
        self.public_key
    }

    /// Builds a server configuration with a fresh key pair and OPRF seed,
    /// drawn from the operating system's random source.
    pub fn new(config: Config) -> (r: Self)
        ensures
            r.spec_config() == config,
            r.spec_public_key().spec_config() == config,
            r.model().2.len() == server_setup_len(config.spec_group()),
            setup_public_key_of(suite_code(config.spec_suite()), r.model().2) == Some(
                r.spec_public_key().spec_bytes(),
            ),
    {
        let (setup, key) = registry::server_setup(config.cipher_suite());
        ServerConfig { config, setup, public_key: PublicKey::new(config, key) }
    }

    /// The shared configuration.
    pub fn config(&self) -> (r: Config)
        ensures
            r == self.spec_config(),
    {
        self.config
    }

    /// The server's public key, for clients to check the server with.
    pub fn public_key(&self) -> (r: PublicKey)
        ensures
            r.spec_config() == self.spec_public_key().spec_config(),
            r.spec_bytes() == self.spec_public_key().spec_bytes(),
            r.spec_config() == self.spec_config(),
    {
        proof {
            use_type_invariant(self);
        }
        self.public_key.duplicate()
    }
}

impl Default for ServerConfig {
    fn default() -> (r: Self)
        ensures
            r.spec_config() == r.spec_public_key().spec_config(),
    {
        ServerConfig::new(Config::default())
    }
}

impl Clone for ServerConfig {
    fn clone(&self) -> (r: Self)
        ensures
            r.spec_config() == self.spec_config(),
            r.spec_public_key().spec_bytes() == self.spec_public_key().spec_bytes(),
    {
        proof {
            use_type_invariant(self);
        }
        ServerConfig {
            config: self.config,
            setup: copy_bytes(self.setup.as_slice()),
            public_key: self.public_key.duplicate(),
        }
    }
}

/// Whether a configuration, public key and serialised setup make a server
/// configuration: the key belongs to the configuration and is the setup's own.
pub open spec fn server_config_fits(config: Config, key: (Config, Seq<u8>), setup: Seq<u8>) -> bool {
    key.0 == config && setup_public_key_of(suite_code(config.spec_suite()), setup) == Some(key.1)
}

/// State of a server between the two steps of a registration. See
/// [`register`](Self::register).
#[derive(Clone, Debug, PartialEq, Eq)]
pub struct ServerRegistration {
    config: Config,
    public_key: PublicKey,
}

impl ServerRegistration {
    /// The parts of the value: configuration, server key and an empty body.
    pub closed spec fn model(self) -> (Config, (Config, Seq<u8>), Seq<u8>) {
        (self.config, self.public_key.model(), Seq::<u8>::empty())
    }

    /// The encoding: configuration, server key and an empty body.
    pub fn encode(&self) -> (r: Vec<u8>)
        ensures
            r@ == keyed_encoding(self.model().0, self.model().1, self.model().2),
            read_keyed(r@) == Some(self.model()),
    {
        let r = write_keyed(&self.config, &self.public_key, &[]);
        proof {
            lemma_keyed_round_trip(self.model().0, self.model().1, self.model().2);
        }
        r
    }

    /// Reads a value from its encoding; `None` unless `bytes` encode one
    /// value and nothing more.
    pub fn decode(bytes: &[u8]) -> (r: Option<Self>)
        ensures
            match (r, read_keyed(bytes@)) {
                (Some(x), Some((c, k, b))) => b.len() == 0 && x.model() == (c, k, b),
                (None, Some((c, k, b))) => b.len() != 0,
                (None, None) => true,
                _ => false,
            },
    {
        match take_keyed(bytes) {
            Some((config, public_key, body)) => {
                if body.len() != 0 {
                    return None;
                }
                Some(ServerRegistration { config, public_key })
            },
            None => None,
        }
    }

    /// The configuration of the registration.
    pub closed spec fn spec_config(self) -> Config {
        self.config
    }

    /// The key of the server that answered.
    pub closed spec fn spec_public_key(self) -> PublicKey {
        self.public_key
    }

    /// The configuration of the registration.
    pub fn config(&self) -> (r: Config)
        ensures
            r == self.spec_config(),
    {
        self.config
    }

    /// The key of the server that answered.
    pub fn public_key(&self) -> (r: PublicKey)
        ensures
            r.spec_config() == self.spec_public_key().spec_config(),
            r.spec_bytes() == self.spec_public_key().spec_bytes(),
    {
        self.public_key.duplicate()
    }

    /// Answers a registration request. The [`RegistrationResponse`] goes back
    /// to the client; see
    /// [`ClientRegistration::finish`](crate::ClientRegistration::finish).
    ///
    /// Fails with [`Error::Config`] exactly when the request was made under
    /// another [`Config`], and otherwise only with [`Error::Opaque`].
    pub fn register(config: &ServerConfig, request: RegistrationRequest) -> (r: Result<
        (Self, RegistrationResponse),
        Error,
    >)
        ensures
            (request.spec_config() != config.spec_config()) == (r == Err::<
                (Self, RegistrationResponse),
                Error,
            >(Error::Config)),
            r matches Err(e) ==> (e == Error::Config || e == Error::Opaque),
            request.spec_config() == config.spec_config() ==> (r is Ok)
                == registration_response_of(
                suite_code(config.spec_config().spec_suite()),
                config.model().2,
                request.spec_payload(),
            ) is Some,
            r matches Ok((state, response)) ==> state.spec_config() == config.spec_config()
                && state.spec_public_key().spec_config() == config.spec_config()
                && state.spec_public_key().spec_bytes() == config.spec_public_key().spec_bytes()
                && response.spec_config() == config.spec_config() && response.spec_payload()
                == registration_response_of(
                suite_code(config.spec_config().spec_suite()),
                config.model().2,
                request.spec_payload(),
            )->0,
            r matches Ok((_, response)) ==> response_server_key_of(
                suite_code(config.spec_config().spec_suite()),
                response.spec_payload(),
            ) == config.spec_public_key().spec_bytes(),
    {
        proof {
            use_type_invariant(config);
        }
        if request.config() != config.config {
            return Err(Error::Config);
        }
        match registry::server_registration_start(
            config.config.cipher_suite(),
            config.setup.as_slice(),
            request.payload(),
        ) {
            Ok(message) => {
                let state = ServerRegistration { config: config.config, public_key: config.public_key() };
                Ok((state, RegistrationResponse::new(config.config, message)))
            },
            Err(_) => Err(Error::Opaque),
        }
    }

    /// Finishes the registration: the [`ServerFile`] holds the client's
    /// record and the server key it was made for. Fails with
    /// [`Error::Config`] exactly when the finalization was made under another
    /// [`Config`], and otherwise only with [`Error::Opaque`], when the upload
    /// is malformed.
    pub fn finish(self, finalization: RegistrationFinalization) -> (r: Result<ServerFile, Error>)
        ensures
            (finalization.spec_config() != self.spec_config()) == (r == Err::<ServerFile, Error>(
                Error::Config,
            )),
            r matches Err(e) ==> (e == Error::Config || e == Error::Opaque),
            finalization.spec_config() == self.spec_config() ==> (r is Ok) == registration_record_of(
                suite_code(self.spec_config().spec_suite()),
                finalization.spec_payload(),
            ) is Some,
            r matches Ok(file) ==> file.spec_config() == self.spec_config() && file.spec_public_key()
                == self.spec_public_key() && file.spec_record() == registration_record_of(
                suite_code(self.spec_config().spec_suite()),
                finalization.spec_payload(),
            )->0,
    {
        if finalization.config() != self.config {
            return Err(Error::Config);
        }
        match registry::server_registration_finish(self.config.cipher_suite(), finalization.payload()) {
            Ok(record) => Ok(ServerFile { config: self.config, public_key: self.public_key, file: record }),
            Err(_) => Err(Error::Opaque),
        }
    }
}

/// A registered client as the server stores it: the OPAQUE record and the
/// key of the server it was made under. A file can serve any number of
/// logins.
#[derive(Clone, Debug, PartialEq, Eq)]
pub struct ServerFile {
    config: Config,
    public_key: PublicKey,
    file: Vec<u8>,
}

impl ServerFile {
    /// The parts of the value: configuration, server key and OPAQUE record.
    pub closed spec fn model(self) -> (Config, (Config, Seq<u8>), Seq<u8>) {
        (self.config, self.public_key.model(), self.file@)
    }

    /// The encoding: configuration, server key and OPAQUE record.
    pub fn encode(&self) -> (r: Vec<u8>)
        ensures
            r@ == keyed_encoding(self.model().0, self.model().1, self.model().2),
            read_keyed(r@) == Some(self.model()),
    {
        let r = write_keyed(&self.config, &self.public_key, self.file.as_slice());
        proof {
            lemma_keyed_round_trip(self.model().0, self.model().1, self.model().2);
        }
        r
    }

    /// Reads a value from its encoding; `None` unless `bytes` encode one
    /// value and nothing more.
    pub fn decode(bytes: &[u8]) -> (r: Option<Self>)
        ensures
            match (r, read_keyed(bytes@)) {
                (Some(x), Some((c, k, b))) => x.model() == (c, k, b),
                (None, None) => true,
                _ => false,
            },
    {
        match take_keyed(bytes) {
            Some((config, public_key, body)) => {
                Some(ServerFile { config, public_key, file: body })
            },
            None => None,
        }
    }

    /// The configuration of the file.
    pub closed spec fn spec_config(self) -> Config {
        self.config
    }

    /// The key of the server the file was made under.
    pub closed spec fn spec_public_key(self) -> PublicKey {
        self.public_key
    }

    /// The OPAQUE record.
    pub closed spec fn spec_record(self) -> Seq<u8> {
        self.file@
    }

    /// The configuration of the file.
    pub fn config(&self) -> (r: Config)
        ensures
            r == self.spec_config(),
    {
        self.config
    }

    /// The key of the server the file was made under.
    pub fn public_key(&self) -> (r: PublicKey)
        ensures
            r.spec_config() == self.spec_public_key().spec_config(),
            r.spec_bytes() == self.spec_public_key().spec_bytes(),
    {
        self.public_key.duplicate()
    }
}

/// State of a server between the two steps of a login. See
/// [`login`](Self::login).
#[derive(Clone, Debug, PartialEq, Eq)]
pub struct ServerLogin {
    config: Config,
    public_key: PublicKey,
    state: Vec<u8>,
}

/// Whether a server file was made under the server whose key is given.
pub open spec fn file_fits(file: ServerFile, key: PublicKey) -> bool {
    file.spec_public_key().spec_config() == key.spec_config()
        && file.spec_public_key().spec_bytes() == key.spec_bytes()
}

impl ServerLogin {
    /// The parts of the value: configuration, server key and OPAQUE state.
    pub closed spec fn model(self) -> (Config, (Config, Seq<u8>), Seq<u8>) {
        (self.config, self.public_key.model(), self.state@)
    }

    /// The encoding: configuration, server key and OPAQUE state.
    pub fn encode(&self) -> (r: Vec<u8>)
        ensures
            r@ == keyed_encoding(self.model().0, self.model().1, self.model().2),
            read_keyed(r@) == Some(self.model()),
    {
        let r = write_keyed(&self.config, &self.public_key, self.state.as_slice());
        proof {
            lemma_keyed_round_trip(self.model().0, self.model().1, self.model().2);
        }
        r
    }

    /// Reads a value from its encoding; `None` unless `bytes` encode one
    /// value and nothing more.
    pub fn decode(bytes: &[u8]) -> (r: Option<Self>)
        ensures
            match (r, read_keyed(bytes@)) {
                (Some(x), Some((c, k, b))) => x.model() == (c, k, b),
                (None, None) => true,
                _ => false,
            },
    {
        match take_keyed(bytes) {
            Some((config, public_key, body)) => {
                Some(ServerLogin { config, public_key, state: body })
            },
            None => None,
        }
    }

    /// The configuration of the login.
    pub closed spec fn spec_config(self) -> Config {
        self.config
    }

    /// The key of the server that answered.
    pub closed spec fn spec_public_key(self) -> PublicKey {
        self.public_key
    }

    /// The configuration of the login.
    pub fn config(&self) -> (r: Config)
        ensures
            r == self.spec_config(),
    {
        self.config
    }

    /// The key of the server that answered.
    pub fn public_key(&self) -> (r: PublicKey)
        ensures
            r.spec_config() == self.spec_public_key().spec_config(),
            r.spec_bytes() == self.spec_public_key().spec_bytes(),
    {
        self.public_key.duplicate()
    }

    /// Answers a login request. Pass the client's [`ServerFile`] if it is
    /// registered and `None` if not: the answer then comes from a simulated
    /// record, and the client learns only at the end that the login failed.
    ///
    /// Fails with [`Error::Config`] exactly when the request was made under
    /// another [`Config`], else with [`Error::ServerFile`] exactly when the
    /// file was made under another server key, and otherwise only with
    /// [`Error::Opaque`].
    pub fn login(config: &ServerConfig, file: Option<ServerFile>, request: LoginRequest) -> (r: Result<
        (Self, LoginResponse),
        Error,
    >)
        ensures
            (request.spec_config() != config.spec_config()) == (r == Err::<
                (Self, LoginResponse),
                Error,
            >(Error::Config)),
            (request.spec_config() == config.spec_config() && (file matches Some(f) && !file_fits(
                f,
                config.spec_public_key(),
            ))) == (r == Err::<(Self, LoginResponse), Error>(Error::ServerFile)),
            r matches Err(e) ==> (e == Error::Config || e == Error::ServerFile || e == Error::Opaque),
            r matches Ok((state, response)) ==> state.spec_config() == config.spec_config()
                && state.spec_public_key().spec_config() == config.spec_config()
                && state.spec_public_key().spec_bytes() == config.spec_public_key().spec_bytes()
                && response.spec_config() == config.spec_config(),
            r matches Ok((state, response)) ==> login_start_outcome(
                suite_code(config.spec_config().spec_suite()),
                config.model().2,
                match file {
                    Some(f) => Some(f.spec_record()),
                    None => None,
                },
                request.spec_payload(),
                state.model().2,
                response.spec_payload(),
            ),
    {
        proof {
            use_type_invariant(config);
        }
        if request.config() != config.config {
            return Err(Error::Config);
        }
        let outcome = match &file {
            Some(f) => {
                if !f.public_key.same_as(&config.public_key) {
                    return Err(Error::ServerFile);
                }
                registry::server_login_start(
                    config.config.cipher_suite(),
                    config.setup.as_slice(),
                    Some(f.file.as_slice()),
                    request.payload(),
                )
            },
            None => registry::server_login_start(
                config.config.cipher_suite(),
                config.setup.as_slice(),
                None,
                request.payload(),
            ),
        };
        match outcome {
            Ok((state, message)) => {
                let login = ServerLogin { config: config.config, public_key: config.public_key(), state };
                Ok((login, LoginResponse::new(config.config, message)))
            },
            Err(_) => Err(Error::Opaque),
        }
    }

    /// Finishes the login by checking the client's finalization. Fails with
    /// [`Error::Config`] exactly when the finalization was made under another
    /// [`Config`], and otherwise only with [`Error::Opaque`], when the client
    /// did not authenticate.
    pub fn finish(self, finalization: LoginFinalization) -> (r: Result<(), Error>)
        ensures
            (finalization.spec_config() != self.spec_config()) == (r == Err::<(), Error>(
                Error::Config,
            )),
            r matches Err(e) ==> (e == Error::Config || e == Error::Opaque),
            finalization.spec_config() == self.spec_config() ==> (r is Ok) == login_accepted_of(
                suite_code(self.spec_config().spec_suite()),
                self.model().2,
                finalization.spec_payload(),
            ),
    {
        if finalization.config() != self.config {
            return Err(Error::Config);
        }
        match registry::server_login_finish(
            self.config.cipher_suite(),
            self.state.as_slice(),
            finalization.payload(),
        ) {
            Ok(()) => Ok(()),
            Err(_) => Err(Error::Opaque),
        }
    }
}

} // verus!
