//! The client side of registration and login.

use vstd::prelude::*;

use crate::config::{public_key_len, suite_code, Config};
use crate::encoding::{
    client_state_encoding, key_fits, lemma_client_state_round_trip, read_client_state,
    take_client_state, write_client_state,
};
use crate::error::Error;
use crate::export_key::{widened, ExportKey, EXPORT_KEY_LEN};
use crate::message::{
    LoginFinalization, LoginRequest, LoginResponse, RegistrationFinalization,
    RegistrationRequest, RegistrationResponse,
};
use crate::public_key::{
    lemma_public_key_round_trip, copy_bytes, duplicate_option, key_model, public_key_encoding, read_public_key, PublicKey,
};
use crate::registry;
use crate::server::ServerConfig;
use crate::config::Argon2Algorithm;
use crate::suites::{
    failure_of, login_outcome_of, login_request_outcome, outcome_model, registration_start_outcome,
    response_server_key_of, OpaqueFailure,
};

verus! {

/// Client configuration: the [`Config`] and, optionally, the server key the
/// client expects.
#[derive(Debug, PartialEq, Eq)]
pub struct ClientConfig {
    config: Config,
    public_key: Option<PublicKey>,
}

impl ClientConfig {
    #[verifier::type_invariant]
    spec fn inv(self) -> bool {
        self.public_key matches Some(k) ==> k.spec_config() == self.config
    }

    /// The shared configuration.
    pub closed spec fn spec_config(self) -> Config {
        self.config
    }

    /// The server key the client expects, if any.
    pub closed spec fn spec_public_key(self) -> Option<PublicKey> {
        self.public_key
    }

    /// Builds a client configuration. Fails with [`Error::Config`] exactly
    /// when the key was made under another [`Config`].
    pub fn new(config: Config, public_key: Option<PublicKey>) -> (r: Result<Self, Error>)
        ensures
            (public_key matches Some(k) && k.spec_config() != config) ==> r == Err::<Self, Error>(
                Error::Config,
            ),
            !(public_key matches Some(k) && k.spec_config() != config) ==> (r matches Ok(c)
                && c.spec_config() == config && c.spec_public_key() == public_key),
    {
        if let Some(k) = &public_key {
            if k.config() != config {
                return Err(Error::Config);
            }
        }
        Ok(ClientConfig { config, public_key })
    }

    /// The shared configuration.
    pub fn config(&self) -> (r: Config)
        ensures
            r == self.spec_config(),
    {
        self.config
    }

    /// The server key the client expects, if any.
    pub fn public_key(&self) -> (r: Option<PublicKey>)
        ensures
            key_model(r) == key_model(self.spec_public_key()),
    {
        duplicate_option(&self.public_key)
    }
}

impl Default for ClientConfig {
    fn default() -> (r: Self)
        ensures
            r.spec_public_key().is_none(),
    {
        ClientConfig { config: Config::default(), public_key: None }
    }
}

impl Clone for ClientConfig {
    fn clone(&self) -> (r: Self)
        ensures
            r.spec_config() == self.spec_config(),
            key_model(r.spec_public_key()) == key_model(self.spec_public_key()),
    {
        proof {
            use_type_invariant(self);
        }
        ClientConfig { config: self.config, public_key: duplicate_option(&self.public_key) }
    }
}

/// What a client keeps of a server: its public key, to check the server on
/// the next login.
#[derive(Clone, Debug, PartialEq, Eq)]
pub struct ClientFile {
    public_key: PublicKey,
}

impl ClientFile {
    /// The server key that was observed.
    pub closed spec fn spec_public_key(self) -> PublicKey {
        self.public_key
    }

    /// The configuration of the file.
    pub fn config(&self) -> (r: Config)
        ensures
            r == self.spec_public_key().spec_config(),
    {
        self.public_key.config()
    }

    /// The server key that was observed.
    pub fn public_key(&self) -> (r: PublicKey)
        ensures
            r.spec_config() == self.spec_public_key().spec_config(),
            r.spec_bytes() == self.spec_public_key().spec_bytes(),
    {
        self.public_key.duplicate()
    }

    /// The encoding of the file: that of its key.
    pub fn encode(&self) -> (r: Vec<u8>)
        ensures
            r@ == public_key_encoding(self.spec_public_key().model()),
            read_public_key(r@, 0) == Some((self.spec_public_key().model(), r@.len() as int)),
    {
        self.public_key.encode()
    }

    /// Reads a file from its encoding; `None` unless `bytes` encode one key
    /// and nothing more.
    pub fn decode(bytes: &[u8]) -> (r: Option<ClientFile>)
        ensures
            match (r, read_public_key(bytes@, 0)) {
                (Some(f), Some((m, next))) => f.spec_public_key().model() == m && next
                    == bytes@.len(),
                (None, Some((_, next))) => next != bytes@.len(),
                (None, None) => true,
                _ => false,
            },
    {
        match PublicKey::decode(bytes) {
            Some(public_key) => Some(ClientFile { public_key }),
            None => None,
        }
    }
}

/// The outcome that a client-side finish step promises for each answer of
/// OPAQUE: `outcome` holds the outgoing payload, the raw export key and the
/// server key that OPAQUE observed.
pub open spec fn client_finish_spec(
    config: Config,
    expected: Option<(Config, Seq<u8>)>,
    outcome: Result<(Seq<u8>, Seq<u8>, Seq<u8>), OpaqueFailure>,
) -> Result<(Seq<u8>, Seq<u8>, Seq<u8>), Error> {
    if expected matches Some((c, _)) && c != config {
        Err(Error::Config)
    } else {
        match outcome {
            Err(OpaqueFailure::InvalidLogin) => Err(Error::Credentials),
            Err(OpaqueFailure::Other) => Err(Error::Opaque),
            Ok((message, export_key, server_key)) => {
                if export_key.len() > EXPORT_KEY_LEN || server_key.len() != public_key_len(
                    config.spec_ake(),
                ) {
                    Err(Error::Opaque)
                } else if expected matches Some((_, bytes)) && bytes != server_key {
                    Err(Error::InvalidServer)
                } else {
                    Ok((server_key, message, widened(export_key)))
                }
            },
        }
    }
}

/// Checks what OPAQUE returned against the expected server key and builds
/// the client file, the outgoing payload and the export key.
fn conclude(
    config: Config,
    expected: Option<PublicKey>,
    outcome: Result<(Vec<u8>, Vec<u8>, Vec<u8>), OpaqueFailure>,
) -> (r: Result<(ClientFile, Vec<u8>, ExportKey), Error>)
    requires
        expected matches Some(k) ==> k.spec_config() == config,
    ensures
        match (r, client_finish_spec(config, key_model(expected), outcome_model(outcome))) {
            (Ok((file, message, key)), Ok((k, m, e))) => file.spec_public_key().spec_config()
                == config && file.spec_public_key().spec_bytes() == k && message@ == m
                && key.spec_bytes() == e,
            (Err(e1), Err(e2)) => e1 == e2,
            _ => false,
        },
{
    let (message, export_key, server_key) = match outcome {
        Ok(out) => out,
        Err(OpaqueFailure::InvalidLogin) => return Err(Error::Credentials),
        Err(OpaqueFailure::Other) => return Err(Error::Opaque),
    };
    if export_key.len() > EXPORT_KEY_LEN || server_key.len() != public_key_len_exec(config) {
        return Err(Error::Opaque);
    }
    let public_key = match expected {
        Some(k) => {
            if !k.is_encoding(server_key.as_slice()) {
                return Err(Error::InvalidServer);
            }
            k
        },
        None => PublicKey::new(config, server_key),
    };
    let key = ExportKey::new(export_key.as_slice());
    Ok((ClientFile { public_key }, message, key))
}

/// Length of a server key under a configuration.
pub(crate) fn public_key_len_exec(config: Config) -> (r: usize)
    ensures
        r == public_key_len(config.spec_ake()),
{
    match config.ake() {
        crate::config::Ake::P256 => 33,
        _ => 32,
    }
}

/// State of a client between the two steps of a registration. See
/// [`register`](Self::register).
#[derive(Debug, PartialEq, Eq)]
pub struct ClientRegistration {
    config: Config,
    public_key: Option<PublicKey>,
    password: Vec<u8>,
    state: Vec<u8>,
}

impl ClientRegistration {
    #[verifier::type_invariant]
    spec fn inv(self) -> bool {
        self.public_key matches Some(k) ==> k.spec_config() == self.config
    }

    /// The parts of the state: configuration, expected key, password and
    /// OPAQUE state.
    pub closed spec fn model(self) -> (Config, Option<(Config, Seq<u8>)>, Seq<u8>, Seq<u8>) {
        (self.config, key_model(self.public_key), self.password@, self.state@)
    }

    /// The encoding of the state: configuration, expected key, password and
    /// OPAQUE state. It holds the password: keep it as secret as that.
    pub fn encode(&self) -> (r: Vec<u8>)
        ensures
            r@ == client_state_encoding(self.model().0, self.model().1, self.model().2, self.model().3),
            read_client_state(r@) == Some(self.model()),
            key_fits(self.model().0, self.model().1),
    {
        proof {
            use_type_invariant(self);
        }
        let r = write_client_state(
            &self.config,
            &self.public_key,
            self.password.as_slice(),
            self.state.as_slice(),
        );
        proof {
            lemma_client_state_round_trip(self.model().0, self.model().1, self.model().2, self.model().3);
        }
        r
    }

    /// Reads a state from its encoding; `None` unless `bytes` encode one
    /// state whose key belongs to its configuration, and nothing more.
    pub fn decode(bytes: &[u8]) -> (r: Option<Self>)
        ensures
            match (r, read_client_state(bytes@)) {
                (Some(x), Some((c, k, a, b))) => key_fits(c, k) && x.model() == (c, k, a, b),
                (None, Some((c, k, _, _))) => !key_fits(c, k),
                (None, None) => true,
                _ => false,
            },
    {
        match take_client_state(bytes) {
            Some((config, public_key, password, state)) => {
                if let Some(k) = &public_key {
                    if k.config() != config {
                        return None;
                    }
                }
                Some(ClientRegistration { config, public_key, password, state })
            },
            None => None,
        }
    }

    /// The configuration of the registration.
    pub closed spec fn spec_config(self) -> Config {
        self.config
    }

    /// The server key the client expects, if any.
    pub closed spec fn spec_public_key(self) -> Option<PublicKey> {
        self.public_key
    }

    /// The configuration of the registration.
    pub fn config(&self) -> (r: Config)
        ensures
            r == self.spec_config(),
    {
        self.config
    }

    /// The server key the client expects, if any.
    pub fn public_key(&self) -> (r: Option<PublicKey>)
        ensures
            key_model(r) == key_model(self.spec_public_key()),
    {
        duplicate_option(&self.public_key)
    }

    /// Starts a registration. The [`RegistrationRequest`] goes to the server;
    /// see [`ServerRegistration::register`](crate::ServerRegistration::register).
    /// Fails only with [`Error::Opaque`], when OPAQUE fails.
    pub fn register(config: &ClientConfig, password: &[u8]) -> (r: Result<
        (Self, RegistrationRequest),
        Error,
    >)
        ensures
            r matches Err(e) ==> e == Error::Opaque,
            r matches Ok((state, request)) ==> state.spec_config() == config.spec_config()
                && key_model(state.spec_public_key()) == key_model(config.spec_public_key())
                && request.spec_config() == config.spec_config(),
            r matches Ok((state, request)) ==> state.model().2 == password@
                && registration_start_outcome(
                suite_code(config.spec_config().spec_suite()),
                password@,
                state.model().3,
                request.spec_payload(),
            ),
    {
        proof {
            use_type_invariant(config);
        }
        let c = config.config();
        match registry::client_registration_start(c.cipher_suite(), password) {
            Ok((state, message)) => {
                let registration = ClientRegistration {
                    config: c,
                    public_key: duplicate_option(&config.public_key),
                    password: copy_bytes(password),
                    state,
                };
                Ok((registration, RegistrationRequest::new(c, message)))
            },
            Err(_) => Err(Error::Opaque),
        }
    }

    /// Finishes the registration with the server's answer. The
    /// [`RegistrationFinalization`] goes back to the server; the
    /// [`ClientFile`] checks the server on later logins; the [`ExportKey`] is
    /// the client's secret.
    ///
    /// Fails with [`Error::Config`] when the response was made under another
    /// [`Config`], with [`Error::MhfConfig`] when the `argon2` crate refuses
    /// the MHF parameters, with [`Error::InvalidServer`] when the server's key
    /// is not the one expected, and with [`Error::Opaque`] when OPAQUE fails.
    pub fn finish(self, response: RegistrationResponse) -> (r: Result<
        (ClientFile, RegistrationFinalization, ExportKey),
        Error,
    >)
        ensures
            (r == Err::<(ClientFile, RegistrationFinalization, ExportKey), Error>(Error::Config))
                == (response.spec_config() != self.spec_config()),
            (r == Err::<(ClientFile, RegistrationFinalization, ExportKey), Error>(Error::MhfConfig))
                == (response.spec_config() == self.spec_config()
                && !self.spec_config().spec_mhf().spec_usable()),
            r matches Err(e) ==> (e == Error::Config || e == Error::MhfConfig || e == Error::Opaque
                || e == Error::InvalidServer),
            r matches Ok((file, message, _)) ==> file.spec_public_key().spec_config()
                == self.spec_config() && message.spec_config() == self.spec_config() && (
            self.spec_public_key() matches Some(k) ==> file.spec_public_key().spec_bytes()
                == k.spec_bytes()),
            r matches Ok((file, _, _)) ==> file.spec_public_key().spec_bytes()
                == response_server_key_of(
                suite_code(self.spec_config().spec_suite()),
                response.spec_payload(),
            ),
            r == Err::<(ClientFile, RegistrationFinalization, ExportKey), Error>(Error::InvalidServer)
                ==> self.spec_public_key() is Some,
    {
        proof {
            use_type_invariant(&self);
        }
        if response.config() != self.config {
            return Err(Error::Config);
        }
        let params = match self.config.mhf().to_slow_hash() {
            Ok(params) => params,
            Err(e) => return Err(e),
        };
        let outcome = registry::client_registration_finish(
            self.config.cipher_suite(),
            self.state.as_slice(),
            self.password.as_slice(),
            response.payload(),
            params.algorithm().to_argon2(),
            params.m_cost(),
            params.t_cost(),
            params.p_cost(),
        );
        ClientRegistration::conclude(self.config, self.public_key, outcome)
    }

    /// Finishes a registration from what OPAQUE returned for it: checks the
    /// server key against `public_key`, the key the client expected, and
    /// builds the [`ClientFile`], the [`RegistrationFinalization`] and the
    /// [`ExportKey`].
    pub fn conclude(
        config: Config,
        public_key: Option<PublicKey>,
        outcome: Result<(Vec<u8>, Vec<u8>, Vec<u8>), OpaqueFailure>,
    ) -> (r: Result<(ClientFile, RegistrationFinalization, ExportKey), Error>)
        ensures
            match (r, client_finish_spec(config, key_model(public_key), outcome_model(outcome))) {
                (Ok((file, message, key)), Ok((k, m, e))) => file.spec_public_key().spec_config()
                    == config && file.spec_public_key().spec_bytes() == k && message.spec_config()
                    == config && message.spec_payload() == m && key.spec_bytes() == e,
                (Err(e1), Err(e2)) => e1 == e2,
                _ => false,
            },
    {
        let expected = match public_key {
            Some(k) => {
                if k.config() != config {
                    return Err(Error::Config);
                }
                Some(k)
            },
            None => None,
        };
        match conclude(config, expected, outcome) {
            Ok((file, message, key)) => Ok((file, RegistrationFinalization::new(config, message), key)),
            Err(e) => Err(e),
        }
    }
}

/// State of a client between the two steps of a login. See
/// [`login`](Self::login).
#[derive(Debug, PartialEq, Eq)]
pub struct ClientLogin {
    config: Config,
    public_key: Option<PublicKey>,
    password: Vec<u8>,
    state: Vec<u8>,
}

/// What OPAQUE's client login step gives for a login state (configuration,
/// expected key, password, OPAQUE state) and a serialised response, with the
/// state's suite and Argon2 parameters.
pub open spec fn login_outcome_of_state(
    state: (Config, Option<(Config, Seq<u8>)>, Seq<u8>, Seq<u8>),
    response: Seq<u8>,
) -> Result<(Seq<u8>, Seq<u8>, Seq<u8>), bool> {
    let params = state.0.spec_mhf()->Argon2_0;
    login_outcome_of(
        suite_code(state.0.spec_suite()),
        state.3,
        state.2,
        response,
        params.spec_algorithm() == Argon2Algorithm::Argon2d,
        params.spec_m_cost(),
        params.spec_t_cost(),
        params.spec_p_cost(),
    )
}

/// The key that a login expects: the client file's if there is one, else
/// the client configuration's.
pub open spec fn merged_key(
    config_key: Option<(Config, Seq<u8>)>,
    file_key: Option<(Config, Seq<u8>)>,
) -> Option<(Config, Seq<u8>)> {
    match file_key {
        Some(k) => Some(k),
        None => config_key,
    }
}

impl ClientLogin {
    #[verifier::type_invariant]
    spec fn inv(self) -> bool {
        self.public_key matches Some(k) ==> k.spec_config() == self.config
    }

    /// The parts of the state: configuration, expected key, password and
    /// OPAQUE state.
    pub closed spec fn model(self) -> (Config, Option<(Config, Seq<u8>)>, Seq<u8>, Seq<u8>) {
        (self.config, key_model(self.public_key), self.password@, self.state@)
    }

    /// The encoding of the state: configuration, expected key, password and
    /// OPAQUE state. It holds the password: keep it as secret as that.
    pub fn encode(&self) -> (r: Vec<u8>)
        ensures
            r@ == client_state_encoding(self.model().0, self.model().1, self.model().2, self.model().3),
            read_client_state(r@) == Some(self.model()),
            key_fits(self.model().0, self.model().1),
    {
        proof {
            use_type_invariant(self);
        }
        let r = write_client_state(
            &self.config,
            &self.public_key,
            self.password.as_slice(),
            self.state.as_slice(),
        );
        proof {
            lemma_client_state_round_trip(self.model().0, self.model().1, self.model().2, self.model().3);
        }
        r
    }

    /// Reads a state from its encoding; `None` unless `bytes` encode one
    /// state whose key belongs to its configuration, and nothing more.
    pub fn decode(bytes: &[u8]) -> (r: Option<Self>)
        ensures
            match (r, read_client_state(bytes@)) {
                (Some(x), Some((c, k, a, b))) => key_fits(c, k) && x.model() == (c, k, a, b),
                (None, Some((c, k, _, _))) => !key_fits(c, k),
                (None, None) => true,
                _ => false,
            },
    {
        match take_client_state(bytes) {
            Some((config, public_key, password, state)) => {
                if let Some(k) = &public_key {
                    if k.config() != config {
                        return None;
                    }
                }
                Some(ClientLogin { config, public_key, password, state })
            },
            None => None,
        }
    }

    /// The configuration of the login.
    pub closed spec fn spec_config(self) -> Config {
        self.config
    }

    /// The server key the client expects, if any.
    pub closed spec fn spec_public_key(self) -> Option<PublicKey> {
        self.public_key
    }

    /// The configuration of the login.
    pub fn config(&self) -> (r: Config)
        ensures
            r == self.spec_config(),
    {
        self.config
    }

    /// The server key the client expects, if any.
    pub fn public_key(&self) -> (r: Option<PublicKey>)
        ensures
            key_model(r) == key_model(self.spec_public_key()),
    {
        duplicate_option(&self.public_key)
    }

    /// Starts a login. The [`LoginRequest`] goes to the server; see
    /// [`ServerLogin::login`](crate::ServerLogin::login). A [`ClientFile`]
    /// from an earlier run lets the client check the server.
    ///
    /// Fails with [`Error::Config`] when the file was made under another
    /// [`Config`], with [`Error::ConfigPublicKey`] when the file's key and the
    /// configuration's key differ, and with [`Error::Opaque`] when OPAQUE
    /// fails.
    pub fn login(config: &ClientConfig, file: Option<ClientFile>, password: &[u8]) -> (r: Result<
        (Self, LoginRequest),
        Error,
    >)
        ensures
            (r == Err::<(Self, LoginRequest), Error>(Error::Config)) == (file matches Some(f)
                && f.spec_public_key().spec_config() != config.spec_config()),
            (r == Err::<(Self, LoginRequest), Error>(Error::ConfigPublicKey)) == (file matches Some(
                f,
            ) && f.spec_public_key().spec_config() == config.spec_config() && (
            config.spec_public_key() matches Some(k) && k.spec_bytes()
                != f.spec_public_key().spec_bytes())),
            r matches Err(e) ==> (e == Error::Config || e == Error::ConfigPublicKey || e
                == Error::Opaque),
            r matches Ok((state, request)) ==> state.spec_config() == config.spec_config()
                && request.spec_config() == config.spec_config() && key_model(
                state.spec_public_key(),
            ) == merged_key(
                key_model(config.spec_public_key()),
                match file {
                    Some(f) => Some((f.spec_public_key().spec_config(), f.spec_public_key().spec_bytes())),
                    None => None,
                },
            ),
            r matches Ok((state, request)) ==> state.model().2 == password@ && login_request_outcome(
                suite_code(config.spec_config().spec_suite()),
                password@,
                state.model().3,
                request.spec_payload(),
            ),
    {
        proof {
            use_type_invariant(config);
        }
        let c = config.config();
        let public_key = match file {
            Some(f) => {
                if f.public_key.config() != c {
                    return Err(Error::Config);
                }
                if let Some(k) = &config.public_key {
                    if !k.is_encoding(f.public_key.key_bytes()) {
                        return Err(Error::ConfigPublicKey);
                    }
                }
                Some(f.public_key)
            },
            None => duplicate_option(&config.public_key),
        };
        match registry::client_login_start(c.cipher_suite(), password) {
            Ok((state, message)) => {
                let login = ClientLogin { config: c, public_key, password: copy_bytes(password), state };
                Ok((login, LoginRequest::new(c, message)))
            },
            Err(_) => Err(Error::Opaque),
        }
    }

    /// Finishes the login with the server's answer. The
    /// [`LoginFinalization`] goes back to the server.
    ///
    /// Fails with [`Error::Config`] when the response was made under another
    /// [`Config`], with [`Error::MhfConfig`] when the `argon2` crate refuses
    /// the MHF parameters, with [`Error::Credentials`] when the login cannot
    /// be verified (wrong password, unknown user, a record that does not
    /// fit), with [`Error::InvalidServer`] when the server's key is not the
    /// one expected, and with [`Error::Opaque`] on other OPAQUE failures.
    pub fn finish(self, response: LoginResponse) -> (r: Result<
        (ClientFile, LoginFinalization, ExportKey),
        Error,
    >)
        ensures
            (r == Err::<(ClientFile, LoginFinalization, ExportKey), Error>(Error::Config)) == (
            response.spec_config() != self.spec_config()),
            (r == Err::<(ClientFile, LoginFinalization, ExportKey), Error>(Error::MhfConfig)) == (
            response.spec_config() == self.spec_config()
                && !self.spec_config().spec_mhf().spec_usable()),
            r == Err::<(ClientFile, LoginFinalization, ExportKey), Error>(Error::InvalidServer)
                ==> self.spec_public_key() is Some,
            response.spec_config() == self.spec_config() && self.spec_config().spec_mhf().spec_usable()
                ==> match (
                r,
                client_finish_spec(
                    self.spec_config(),
                    key_model(self.spec_public_key()),
                    failure_of(login_outcome_of_state(self.model(), response.spec_payload())),
                ),
            ) {
                (Ok((file, message, key)), Ok((k, m, e))) => file.spec_public_key().spec_config()
                    == self.spec_config() && file.spec_public_key().spec_bytes() == k
                    && message.spec_config() == self.spec_config() && message.spec_payload() == m
                    && key.spec_bytes() == e,
                (Err(e1), Err(e2)) => e1 == e2,
                _ => false,
            },
            r matches Err(e) ==> (e == Error::Config || e == Error::MhfConfig || e == Error::Opaque
                || e == Error::InvalidServer || e == Error::Credentials),
            r matches Ok((file, message, _)) ==> file.spec_public_key().spec_config()
                == self.spec_config() && message.spec_config() == self.spec_config() && (
            self.spec_public_key() matches Some(k) ==> file.spec_public_key().spec_bytes()
                == k.spec_bytes()),
    {
        proof {
            use_type_invariant(&self);
        }
        if response.config() != self.config {
            return Err(Error::Config);
        }
        let params = match self.config.mhf().to_slow_hash() {
            Ok(params) => params,
            Err(e) => return Err(e),
        };
        let outcome = registry::client_login_finish(
            self.config.cipher_suite(),
            self.state.as_slice(),
            self.password.as_slice(),
            response.payload(),
            params.algorithm().to_argon2(),
            params.m_cost(),
            params.t_cost(),
            params.p_cost(),
        );
        ClientLogin::conclude(self.config, self.public_key, outcome)
    }

    /// Finishes a login from what OPAQUE returned for it: a failed envelope
    /// becomes [`Error::Credentials`]; then the server key is checked against
    /// `public_key`, the key the client expected.
    pub fn conclude(
        config: Config,
        public_key: Option<PublicKey>,
        outcome: Result<(Vec<u8>, Vec<u8>, Vec<u8>), OpaqueFailure>,
    ) -> (r: Result<(ClientFile, LoginFinalization, ExportKey), Error>)
        ensures
            match (r, client_finish_spec(config, key_model(public_key), outcome_model(outcome))) {
                (Ok((file, message, key)), Ok((k, m, e))) => file.spec_public_key().spec_config()
                    == config && file.spec_public_key().spec_bytes() == k && message.spec_config()
                    == config && message.spec_payload() == m && key.spec_bytes() == e,
                (Err(e1), Err(e2)) => e1 == e2,
                _ => false,
            },
    {
        let expected = match public_key {
            Some(k) => {
                if k.config() != config {
                    return Err(Error::Config);
                }
                Some(k)
            },
            None => None,
        };
        match conclude(config, expected, outcome) {
            Ok((file, message, key)) => Ok((file, LoginFinalization::new(config, message), key)),
            Err(e) => Err(e),
        }
    }
}

impl Clone for ClientRegistration {
    fn clone(&self) -> (r: Self)
        ensures
            r.model() == self.model(),
    {
        proof {
            use_type_invariant(self);
        }
        ClientRegistration {
            config: self.config,
            public_key: duplicate_option(&self.public_key),
            password: copy_bytes(self.password.as_slice()),
            state: copy_bytes(self.state.as_slice()),
        }
    }
}

impl Clone for ClientLogin {
    fn clone(&self) -> (r: Self)
        ensures
            r.model() == self.model(),
    {
        proof {
            use_type_invariant(self);
        }
        ClientLogin {
            config: self.config,
            public_key: duplicate_option(&self.public_key),
            password: copy_bytes(self.password.as_slice()),
            state: copy_bytes(self.state.as_slice()),
        }
    }
}

/// The key that a client observes at registration is the server's public
/// key: for a response that [`ServerRegistration::register`] gave under
/// `server` (which ties the response's key to the server's) and a file that
/// [`ClientRegistration::finish`] built from that response (which ties the
/// file's key to the response's).
///
/// [`ServerRegistration::register`]: crate::ServerRegistration::register
pub proof fn lemma_registration_observes_server_key(
    server: ServerConfig,
    response: RegistrationResponse,
    file: ClientFile,
)
    requires
        response.spec_config() == server.spec_config(),
        response_server_key_of(suite_code(server.spec_config().spec_suite()), response.spec_payload())
            == server.spec_public_key().spec_bytes(),
        file.spec_public_key().spec_bytes() == response_server_key_of(
            suite_code(response.spec_config().spec_suite()),
            response.spec_payload(),
        ),
    ensures
        file.spec_public_key().spec_bytes() == server.spec_public_key().spec_bytes(),
{
}

} // verus!
