//! The concrete OPAQUE cipher suites of this build and the calls into
//! `opaque-ke` for each of them.
//!
//! Every protocol value that `opaque-ke` produces is kept here in its own
//! byte encoding: a call deserialises what it is handed, runs one protocol
//! step and serialises what comes out. The suite is fixed by the function's
//! name; which function runs is decided in [`crate::registry`].

use argon2::{Algorithm, Argon2, Params, Version};
use opaque_ke::errors::ProtocolError;
use opaque_ke::key_exchange::tripledh::TripleDh;
use opaque_ke::rand::rngs::OsRng;
use opaque_ke::{
    ClientLogin, ClientLoginFinishParameters, ClientRegistration,
    ClientRegistrationFinishParameters, CredentialFinalization, CredentialRequest,
    CredentialResponse, Curve25519, Identifiers, RegistrationRequest, RegistrationResponse,
    RegistrationUpload, Ristretto255, ServerLogin, ServerLoginStartParameters,
    ServerRegistration, ServerSetup,
};
use p256::NistP256;
use vstd::prelude::*;

use crate::config::argon2_costs_valid;
use crate::suites::OpaqueFailure::{InvalidLogin, Other};

verus! {

#[verifier::external_type_specification]
#[verifier::external_body]
pub struct ExRistretto255(Ristretto255);

#[verifier::external_type_specification]
#[verifier::external_body]
pub struct ExCurve25519(Curve25519);

#[verifier::external_type_specification]
#[verifier::external_body]
pub struct ExNistP256(NistP256);

#[verifier::external_type_specification]
#[verifier::external_body]
pub struct ExTripleDh(TripleDh);

#[verifier::external_type_specification]
#[verifier::external_body]
pub struct ExArgon2<'key>(argon2::Argon2<'key>);

#[verifier::external_type_specification]
pub struct ExAlgorithm(Algorithm);

/// How a call into `opaque-ke` failed, as far as the library tells causes
/// apart.
pub enum OpaqueFailure {
    /// The client could not open the envelope: wrong password, unknown user
    /// or a record that does not belong to this password.
    InvalidLogin,
    /// Any other failure: malformed input or an internal error.
    Other,
}

/// What a named outcome of `opaque-ke` stands for: `Err(true)` for
/// `InvalidLoginError`, `Err(false)` for any other failure.
pub open spec fn failure_of(outcome: Result<(Seq<u8>, Seq<u8>, Seq<u8>), bool>) -> Result<
    (Seq<u8>, Seq<u8>, Seq<u8>),
    OpaqueFailure,
> {
    match outcome {
        Ok(out) => Ok(out),
        Err(true) => Err(OpaqueFailure::InvalidLogin),
        Err(false) => Err(OpaqueFailure::Other),
    }
}

/// The bytes of an OPAQUE outcome.
pub open spec fn outcome_model(outcome: Result<(Vec<u8>, Vec<u8>, Vec<u8>), OpaqueFailure>) -> Result<
    (Seq<u8>, Seq<u8>, Seq<u8>),
    OpaqueFailure,
> {
    match outcome {
        Ok((a, b, c)) => Ok((a@, b@, c@)),
        Err(e) => Err(e),
    }
}

/// The serialised public key of the key pair that
/// `opaque_ke::ServerSetup::deserialize` rebuilds from the private key in a
/// serialised setup, for the suite of the given code (see
/// [`suite_code`](crate::config::suite_code)); `None` where the setup does
/// not deserialise.
pub uninterp spec fn setup_public_key_of(suite: u8, setup: Seq<u8>) -> Option<Seq<u8>>;

/// The server public key carried in a serialised registration response
/// (`RegistrationResponse::deserialize`, then the key serialised again), for
/// the suite of the given code.
pub uninterp spec fn response_server_key_of(suite: u8, response: Seq<u8>) -> Seq<u8>;

/// Whether a state and a request are one of the outcomes that
/// `opaque_ke::ClientRegistration::start` may return for the password, for
/// the suite of the given code. The call is randomised: this holds of every
/// outcome, whichever the random source picks.
pub uninterp spec fn registration_start_outcome(
    suite: u8,
    password: Seq<u8>,
    state: Seq<u8>,
    request: Seq<u8>,
) -> bool;

/// Whether a state and a request are one of the outcomes that
/// `opaque_ke::ClientLogin::start` may return for the password, for the
/// suite of the given code; it holds of every outcome of the randomised call.
pub uninterp spec fn login_request_outcome(
    suite: u8,
    password: Seq<u8>,
    state: Seq<u8>,
    request: Seq<u8>,
) -> bool;

/// Whether a state and a response are one of the outcomes that
/// `opaque_ke::ServerLogin::start` may return, with an empty credential
/// identifier, for a serialised setup, the user's serialised record (`None`:
/// a simulated one) and a serialised request, for the suite of the given
/// code; it holds of every outcome of the randomised call.
pub uninterp spec fn login_start_outcome(
    suite: u8,
    setup: Seq<u8>,
    record: Option<Seq<u8>>,
    request: Seq<u8>,
    state: Seq<u8>,
    response: Seq<u8>,
) -> bool;

/// The response that `opaque_ke::ServerRegistration::start` gives, with an
/// empty credential identifier, for the suite of the given code (see
/// [`suite_code`](crate::config::suite_code)), a serialised setup and a
/// serialised request; `None` where it fails.
pub uninterp spec fn registration_response_of(suite: u8, setup: Seq<u8>, request: Seq<u8>) -> Option<Seq<u8>>;

/// The serialised record that `opaque_ke::ServerRegistration::finish` makes
/// of a serialised upload, for the suite of the given code; `None` where the
/// upload does not deserialise.
pub uninterp spec fn registration_record_of(suite: u8, upload: Seq<u8>) -> Option<Seq<u8>>;

/// Whether `opaque_ke::ServerLogin::finish` accepts a serialised
/// finalization in a serialised server login state, for the suite of the
/// given code.
pub uninterp spec fn login_accepted_of(suite: u8, state: Seq<u8>, finalization: Seq<u8>) -> bool;

/// What `opaque_ke::ClientLogin::finish` returns for the suite of the given
/// code, a serialised state, the password, a serialised response and Argon2
/// stretching with the given variant (`argon2d`) and costs: the
/// finalization, the export key and the server key, or whether the failure
/// was `InvalidLoginError`. `argon2d` tells Argon2d from Argon2id; the
/// wrappers admit no other variant.
pub uninterp spec fn login_outcome_of(
    suite: u8,
    state: Seq<u8>,
    password: Seq<u8>,
    response: Seq<u8>,
    argon2d: bool,
    m_cost: u32,
    t_cost: u32,
    p_cost: u32,
) -> Result<(Seq<u8>, Seq<u8>, Seq<u8>), bool>;

/// OPRF over Ristretto255 with SHA-512, TripleDH over Ristretto255,
/// Argon2 key stretching.
pub struct Ristretto255Sha2Argon2;

impl opaque_ke::CipherSuite for Ristretto255Sha2Argon2 {
    type OprfCs = Ristretto255;
    type KeGroup = Ristretto255;
    type KeyExchange = TripleDh;
    type Ksf = argon2::Argon2<'static>;
}

/// OPRF over Ristretto255 with SHA-512, TripleDH over X25519,
/// Argon2 key stretching.
pub struct X25519Ristretto255Sha2Argon2;

impl opaque_ke::CipherSuite for X25519Ristretto255Sha2Argon2 {
    type OprfCs = Ristretto255;
    type KeGroup = Curve25519;
    type KeyExchange = TripleDh;
    type Ksf = argon2::Argon2<'static>;
}

/// OPRF over Ristretto255 with SHA-512, TripleDH over P-256,
/// Argon2 key stretching.
pub struct P256Ristretto255Sha2Argon2;

impl opaque_ke::CipherSuite for P256Ristretto255Sha2Argon2 {
    type OprfCs = Ristretto255;
    type KeGroup = NistP256;
    type KeyExchange = TripleDh;
    type Ksf = argon2::Argon2<'static>;
}

/// OPRF over NistP256 with SHA-256, TripleDH over Ristretto255,
/// Argon2 key stretching.
pub struct Ristretto255P256Sha2Argon2;

impl opaque_ke::CipherSuite for Ristretto255P256Sha2Argon2 {
    type OprfCs = NistP256;
    type KeGroup = Ristretto255;
    type KeyExchange = TripleDh;
    type Ksf = argon2::Argon2<'static>;
}

/// OPRF over NistP256 with SHA-256, TripleDH over X25519,
/// Argon2 key stretching.
pub struct X25519P256Sha2Argon2;

impl opaque_ke::CipherSuite for X25519P256Sha2Argon2 {
    type OprfCs = NistP256;
    type KeGroup = Curve25519;
    type KeyExchange = TripleDh;
    type Ksf = argon2::Argon2<'static>;
}

/// OPRF over NistP256 with SHA-256, TripleDH over P-256,
/// Argon2 key stretching.
pub struct P256Sha2Argon2;

impl opaque_ke::CipherSuite for P256Sha2Argon2 {
    type OprfCs = NistP256;
    type KeGroup = NistP256;
    type KeyExchange = TripleDh;
    type Ksf = argon2::Argon2<'static>;
}

/// Relies on `opaque_ke::ServerSetup::new` for [`Ristretto255Sha2Argon2`]: a fresh OPRF seed
/// (64 bytes), server key pair and fake key pair (32-byte private keys),
/// drawn from `OsRng`; returns the serialised setup and the public key
/// (`keypair().public()`), which is 32 bytes long in this group.
#[verifier::external_body]
pub(crate) fn server_setup_ristretto255() -> (r: (Vec<u8>, Vec<u8>))
    ensures
        r.0@.len() == 128,
        r.1@.len() == 32,
        setup_public_key_of(0u8, r.0@) == Some(r.1@),
{
    let setup = ServerSetup::<Ristretto255Sha2Argon2>::new(&mut OsRng);
    (setup.serialize().to_vec(), setup.keypair().public().serialize().to_vec())
}

/// Relies on `opaque_ke::ServerSetup::deserialize` for [`Ristretto255Sha2Argon2`]: the
/// public key (`keypair().public()`) of a serialised setup.
#[verifier::external_body]
pub(crate) fn setup_public_key_ristretto255(setup: &[u8]) -> (r: Option<Vec<u8>>)
    ensures
        setup_public_key_of(0u8, setup@) == match r {
            Some(v) => Some(v@),
            None => None,
        },
{
    let setup = ServerSetup::<Ristretto255Sha2Argon2>::deserialize(setup).ok()?;
    Some(setup.keypair().public().serialize().to_vec())
}

/// Relies on `opaque_ke::ClientRegistration::start` for [`Ristretto255Sha2Argon2`]: blinds the
/// password with randomness from `OsRng`; returns the state and the request.
#[verifier::external_body]
pub(crate) fn client_registration_start_ristretto255(password: &[u8]) -> (r: Result<(Vec<u8>, Vec<u8>), OpaqueFailure>)
    ensures
        r matches Ok((state, request)) ==> registration_start_outcome(0u8, password@, state@, request@),
{
    let result = ClientRegistration::<Ristretto255Sha2Argon2>::start(&mut OsRng, password).map_err(|_| Other)?;
    Ok((result.state.serialize().to_vec(), result.message.serialize().to_vec()))
}

/// Relies on `opaque_ke::ServerRegistration::start` for [`Ristretto255Sha2Argon2`] with an
/// empty credential identifier; it draws no randomness.
#[verifier::external_body]
pub(crate) fn server_registration_start_ristretto255(setup: &[u8], request: &[u8]) -> (r: Result<Vec<u8>, OpaqueFailure>)
    ensures
        r is Ok == registration_response_of(0u8, setup@, request@) is Some,
        r matches Ok(v) ==> v@ == registration_response_of(0u8, setup@, request@)->0,
        r matches Ok(v) ==> Some(response_server_key_of(0u8, v@)) == setup_public_key_of(0u8, setup@),
        r matches Err(e) ==> e == OpaqueFailure::Other,
{
    let setup = ServerSetup::<Ristretto255Sha2Argon2>::deserialize(setup).map_err(|_| Other)?;
    let request = RegistrationRequest::<Ristretto255Sha2Argon2>::deserialize(request).map_err(|_| Other)?;
    let result = ServerRegistration::start(&setup, request, &[]).map_err(|_| Other)?;
    Ok(result.message.serialize().to_vec())
}

/// Relies on `opaque_ke::ServerRegistration::finish` for [`Ristretto255Sha2Argon2`]: the
/// record is the client's upload, read back and serialised again.
#[verifier::external_body]
pub(crate) fn server_registration_finish_ristretto255(upload: &[u8]) -> (r: Result<Vec<u8>, OpaqueFailure>)
    ensures
        r is Ok == registration_record_of(0u8, upload@) is Some,
        r matches Ok(v) ==> v@ == registration_record_of(0u8, upload@)->0,
        r matches Err(e) ==> e == OpaqueFailure::Other,
{
    let upload = RegistrationUpload::<Ristretto255Sha2Argon2>::deserialize(upload).map_err(|_| Other)?;
    Ok(ServerRegistration::finish(upload).serialize().to_vec())
}

/// Relies on `opaque_ke::ClientRegistration::finish` for [`Ristretto255Sha2Argon2`], with the
/// stretching built by `argon2::Params::new` (no output length) and
/// `argon2::Argon2::new` (default version) from the given variant (Argon2id
/// or Argon2d) and costs; it fails, as `Other`, where those are refused.
/// Returns the
/// upload, the export key (one SHA-512 output, 64 bytes) and the
/// server's public key (32 bytes).
#[verifier::external_body]
pub(crate) fn client_registration_finish_ristretto255(
    state: &[u8],
    password: &[u8],
    response: &[u8],
    algorithm: Algorithm,
    m_cost: u32,
    t_cost: u32,
    p_cost: u32,
) -> (r: Result<(Vec<u8>, Vec<u8>, Vec<u8>), OpaqueFailure>)
    requires
        argon2_costs_valid(m_cost, t_cost, p_cost),
        algorithm != Algorithm::Argon2i,
    ensures
        (r matches Ok(out) ==> out.1@.len() == 64 && out.2@.len() == 32),
        (r matches Ok(out) ==> out.2@ == response_server_key_of(0u8, response@)),
        (r matches Err(e) ==> e == OpaqueFailure::Other),
{
    let ksf = Argon2::new(algorithm, Version::default(), Params::new(m_cost, t_cost, p_cost, None).map_err(|_| Other)?);
    let state = ClientRegistration::<Ristretto255Sha2Argon2>::deserialize(state).map_err(|_| Other)?;
    let response = RegistrationResponse::<Ristretto255Sha2Argon2>::deserialize(response).map_err(|_| Other)?;
    let params = ClientRegistrationFinishParameters::new(Identifiers::default(), Some(&ksf));
    let result = state.finish(&mut OsRng, password, response, params).map_err(|_| Other)?;
    Ok((result.message.serialize().to_vec(), result.export_key.to_vec(), result.server_s_pk.serialize().to_vec()))
}

/// Relies on `opaque_ke::ClientLogin::start` for [`Ristretto255Sha2Argon2`]: blinds the password
/// and starts the key exchange with randomness from `OsRng`.
#[verifier::external_body]
pub(crate) fn client_login_start_ristretto255(password: &[u8]) -> (r: Result<(Vec<u8>, Vec<u8>), OpaqueFailure>)
    ensures
        r matches Ok((state, request)) ==> login_request_outcome(0u8, password@, state@, request@),
{
    let result = ClientLogin::<Ristretto255Sha2Argon2>::start(&mut OsRng, password).map_err(|_| Other)?;
    Ok((result.state.serialize().to_vec(), result.message.serialize().to_vec()))
}

/// Relies on `opaque_ke::ServerLogin::start` for [`Ristretto255Sha2Argon2`] with an empty
/// credential identifier; without a record it answers with a simulated one.
#[verifier::external_body]
pub(crate) fn server_login_start_ristretto255(setup: &[u8], file: Option<&[u8]>, request: &[u8]) -> (r: Result<(Vec<u8>, Vec<u8>), OpaqueFailure>)
    ensures
        r matches Ok((state, response)) ==> login_start_outcome(
            0u8,
            setup@,
            match file { Some(f) => Some(f@), None => None },
            request@,
            state@,
            response@,
        ),
{
    let setup = ServerSetup::<Ristretto255Sha2Argon2>::deserialize(setup).map_err(|_| Other)?;
    let file = file.map(ServerRegistration::<Ristretto255Sha2Argon2>::deserialize).transpose().map_err(|_| Other)?;
    let request = CredentialRequest::<Ristretto255Sha2Argon2>::deserialize(request).map_err(|_| Other)?;
    let result = ServerLogin::start(&mut OsRng, &setup, file, request, &[], ServerLoginStartParameters::default()).map_err(|_| Other)?;
    Ok((result.state.serialize().to_vec(), result.message.serialize().to_vec()))
}

/// Relies on `opaque_ke::ClientLogin::finish` for [`Ristretto255Sha2Argon2`], with the
/// stretching built by `argon2::Params::new` (no output length) and
/// `argon2::Argon2::new` (default version) from the given variant (Argon2id
/// or Argon2d) and costs; none of them draws randomness. On success: the finalization, the export key (64 bytes) and
/// the server's public key (32 bytes).
#[verifier::external_body]
pub(crate) fn client_login_finish_ristretto255(
    state: &[u8],
    password: &[u8],
    response: &[u8],
    algorithm: Algorithm,
    m_cost: u32,
    t_cost: u32,
    p_cost: u32,
) -> (r: Result<(Vec<u8>, Vec<u8>, Vec<u8>), OpaqueFailure>)
    requires
        argon2_costs_valid(m_cost, t_cost, p_cost),
        algorithm != Algorithm::Argon2i,
    ensures
        outcome_model(r) == failure_of(
            login_outcome_of(0u8, state@, password@, response@, algorithm == Algorithm::Argon2d, m_cost, t_cost, p_cost),
        ),
        (r matches Ok(out) ==> out.1@.len() == 64 && out.2@.len() == 32),
{
    let ksf = Argon2::new(algorithm, Version::default(), Params::new(m_cost, t_cost, p_cost, None).map_err(|_| Other)?);
    let state = ClientLogin::<Ristretto255Sha2Argon2>::deserialize(state).map_err(|_| Other)?;
    let response = CredentialResponse::<Ristretto255Sha2Argon2>::deserialize(response).map_err(|_| Other)?;
    match state.finish(password, response, ClientLoginFinishParameters::new(None, Identifiers::default(), Some(&ksf))) {
        Ok(r) => Ok((r.message.serialize().to_vec(), r.export_key.to_vec(), r.server_s_pk.serialize().to_vec())),
        Err(ProtocolError::InvalidLoginError) => Err(InvalidLogin),
        Err(_) => Err(Other),
    }
}

/// Relies on `opaque_ke::ServerLogin::finish` for [`Ristretto255Sha2Argon2`]: checks the
/// client's key-exchange MAC; it draws no randomness.
#[verifier::external_body]
pub(crate) fn server_login_finish_ristretto255(state: &[u8], finalization: &[u8]) -> (r: Result<(), OpaqueFailure>)
    ensures
        r is Ok == login_accepted_of(0u8, state@, finalization@),
        r matches Err(e) ==> e == OpaqueFailure::Other,
{
    let state = ServerLogin::<Ristretto255Sha2Argon2>::deserialize(state).map_err(|_| Other)?;
    let finalization = CredentialFinalization::<Ristretto255Sha2Argon2>::deserialize(finalization).map_err(|_| Other)?;
    state.finish(finalization).map_err(|_| Other)?;
    Ok(())
}

/// Relies on `opaque_ke::ServerSetup::new` for [`X25519Ristretto255Sha2Argon2`]: a fresh OPRF seed
/// (64 bytes), server key pair and fake key pair (32-byte private keys),
/// drawn from `OsRng`; returns the serialised setup and the public key
/// (`keypair().public()`), which is 32 bytes long in this group.
#[verifier::external_body]
pub(crate) fn server_setup_x25519_ristretto255() -> (r: (Vec<u8>, Vec<u8>))
    ensures
        r.0@.len() == 128,
        r.1@.len() == 32,
        setup_public_key_of(1u8, r.0@) == Some(r.1@),
{
    let setup = ServerSetup::<X25519Ristretto255Sha2Argon2>::new(&mut OsRng);
    (setup.serialize().to_vec(), setup.keypair().public().serialize().to_vec())
}

/// Relies on `opaque_ke::ServerSetup::deserialize` for [`X25519Ristretto255Sha2Argon2`]: the
/// public key (`keypair().public()`) of a serialised setup.
#[verifier::external_body]
pub(crate) fn setup_public_key_x25519_ristretto255(setup: &[u8]) -> (r: Option<Vec<u8>>)
    ensures
        setup_public_key_of(1u8, setup@) == match r {
            Some(v) => Some(v@),
            None => None,
        },
{
    let setup = ServerSetup::<X25519Ristretto255Sha2Argon2>::deserialize(setup).ok()?;
    Some(setup.keypair().public().serialize().to_vec())
}

/// Relies on `opaque_ke::ClientRegistration::start` for [`X25519Ristretto255Sha2Argon2`]: blinds the
/// password with randomness from `OsRng`; returns the state and the request.
#[verifier::external_body]
pub(crate) fn client_registration_start_x25519_ristretto255(password: &[u8]) -> (r: Result<(Vec<u8>, Vec<u8>), OpaqueFailure>)
    ensures
        r matches Ok((state, request)) ==> registration_start_outcome(1u8, password@, state@, request@),
{
    let result = ClientRegistration::<X25519Ristretto255Sha2Argon2>::start(&mut OsRng, password).map_err(|_| Other)?;
    Ok((result.state.serialize().to_vec(), result.message.serialize().to_vec()))
}

/// Relies on `opaque_ke::ServerRegistration::start` for [`X25519Ristretto255Sha2Argon2`] with an
/// empty credential identifier; it draws no randomness.
#[verifier::external_body]
pub(crate) fn server_registration_start_x25519_ristretto255(setup: &[u8], request: &[u8]) -> (r: Result<Vec<u8>, OpaqueFailure>)
    ensures
        r is Ok == registration_response_of(1u8, setup@, request@) is Some,
        r matches Ok(v) ==> v@ == registration_response_of(1u8, setup@, request@)->0,
        r matches Ok(v) ==> Some(response_server_key_of(1u8, v@)) == setup_public_key_of(1u8, setup@),
        r matches Err(e) ==> e == OpaqueFailure::Other,
{
    let setup = ServerSetup::<X25519Ristretto255Sha2Argon2>::deserialize(setup).map_err(|_| Other)?;
    let request = RegistrationRequest::<X25519Ristretto255Sha2Argon2>::deserialize(request).map_err(|_| Other)?;
    let result = ServerRegistration::start(&setup, request, &[]).map_err(|_| Other)?;
    Ok(result.message.serialize().to_vec())
}

/// Relies on `opaque_ke::ServerRegistration::finish` for [`X25519Ristretto255Sha2Argon2`]: the
/// record is the client's upload, read back and serialised again.
#[verifier::external_body]
pub(crate) fn server_registration_finish_x25519_ristretto255(upload: &[u8]) -> (r: Result<Vec<u8>, OpaqueFailure>)
    ensures
        r is Ok == registration_record_of(1u8, upload@) is Some,
        r matches Ok(v) ==> v@ == registration_record_of(1u8, upload@)->0,
        r matches Err(e) ==> e == OpaqueFailure::Other,
{
    let upload = RegistrationUpload::<X25519Ristretto255Sha2Argon2>::deserialize(upload).map_err(|_| Other)?;
    Ok(ServerRegistration::finish(upload).serialize().to_vec())
}

/// Relies on `opaque_ke::ClientRegistration::finish` for [`X25519Ristretto255Sha2Argon2`], with the
/// stretching built by `argon2::Params::new` (no output length) and
/// `argon2::Argon2::new` (default version) from the given variant (Argon2id
/// or Argon2d) and costs; it fails, as `Other`, where those are refused.
/// Returns the
/// upload, the export key (one SHA-512 output, 64 bytes) and the
/// server's public key (32 bytes).
#[verifier::external_body]
pub(crate) fn client_registration_finish_x25519_ristretto255(
    state: &[u8],
    password: &[u8],
    response: &[u8],
    algorithm: Algorithm,
    m_cost: u32,
    t_cost: u32,
    p_cost: u32,
) -> (r: Result<(Vec<u8>, Vec<u8>, Vec<u8>), OpaqueFailure>)
    requires
        argon2_costs_valid(m_cost, t_cost, p_cost),
        algorithm != Algorithm::Argon2i,
    ensures
        (r matches Ok(out) ==> out.1@.len() == 64 && out.2@.len() == 32),
        (r matches Ok(out) ==> out.2@ == response_server_key_of(1u8, response@)),
        (r matches Err(e) ==> e == OpaqueFailure::Other),
{
    let ksf = Argon2::new(algorithm, Version::default(), Params::new(m_cost, t_cost, p_cost, None).map_err(|_| Other)?);
    let state = ClientRegistration::<X25519Ristretto255Sha2Argon2>::deserialize(state).map_err(|_| Other)?;
    let response = RegistrationResponse::<X25519Ristretto255Sha2Argon2>::deserialize(response).map_err(|_| Other)?;
    let params = ClientRegistrationFinishParameters::new(Identifiers::default(), Some(&ksf));
    let result = state.finish(&mut OsRng, password, response, params).map_err(|_| Other)?;
    Ok((result.message.serialize().to_vec(), result.export_key.to_vec(), result.server_s_pk.serialize().to_vec()))
}

/// Relies on `opaque_ke::ClientLogin::start` for [`X25519Ristretto255Sha2Argon2`]: blinds the password
/// and starts the key exchange with randomness from `OsRng`.
#[verifier::external_body]
pub(crate) fn client_login_start_x25519_ristretto255(password: &[u8]) -> (r: Result<(Vec<u8>, Vec<u8>), OpaqueFailure>)
    ensures
        r matches Ok((state, request)) ==> login_request_outcome(1u8, password@, state@, request@),
{
    let result = ClientLogin::<X25519Ristretto255Sha2Argon2>::start(&mut OsRng, password).map_err(|_| Other)?;
    Ok((result.state.serialize().to_vec(), result.message.serialize().to_vec()))
}

/// Relies on `opaque_ke::ServerLogin::start` for [`X25519Ristretto255Sha2Argon2`] with an empty
/// credential identifier; without a record it answers with a simulated one.
#[verifier::external_body]
pub(crate) fn server_login_start_x25519_ristretto255(setup: &[u8], file: Option<&[u8]>, request: &[u8]) -> (r: Result<(Vec<u8>, Vec<u8>), OpaqueFailure>)
    ensures
        r matches Ok((state, response)) ==> login_start_outcome(
            1u8,
            setup@,
            match file { Some(f) => Some(f@), None => None },
            request@,
            state@,
            response@,
        ),
{
    let setup = ServerSetup::<X25519Ristretto255Sha2Argon2>::deserialize(setup).map_err(|_| Other)?;
    let file = file.map(ServerRegistration::<X25519Ristretto255Sha2Argon2>::deserialize).transpose().map_err(|_| Other)?;
    let request = CredentialRequest::<X25519Ristretto255Sha2Argon2>::deserialize(request).map_err(|_| Other)?;
    let result = ServerLogin::start(&mut OsRng, &setup, file, request, &[], ServerLoginStartParameters::default()).map_err(|_| Other)?;
    Ok((result.state.serialize().to_vec(), result.message.serialize().to_vec()))
}

/// Relies on `opaque_ke::ClientLogin::finish` for [`X25519Ristretto255Sha2Argon2`], with the
/// stretching built by `argon2::Params::new` (no output length) and
/// `argon2::Argon2::new` (default version) from the given variant (Argon2id
/// or Argon2d) and costs; none of them draws randomness. On success: the finalization, the export key (64 bytes) and
/// the server's public key (32 bytes).
#[verifier::external_body]
pub(crate) fn client_login_finish_x25519_ristretto255(
    state: &[u8],
    password: &[u8],
    response: &[u8],
    algorithm: Algorithm,
    m_cost: u32,
    t_cost: u32,
    p_cost: u32,
) -> (r: Result<(Vec<u8>, Vec<u8>, Vec<u8>), OpaqueFailure>)
    requires
        argon2_costs_valid(m_cost, t_cost, p_cost),
        algorithm != Algorithm::Argon2i,
    ensures
        outcome_model(r) == failure_of(
            login_outcome_of(1u8, state@, password@, response@, algorithm == Algorithm::Argon2d, m_cost, t_cost, p_cost),
        ),
        (r matches Ok(out) ==> out.1@.len() == 64 && out.2@.len() == 32),
{
    let ksf = Argon2::new(algorithm, Version::default(), Params::new(m_cost, t_cost, p_cost, None).map_err(|_| Other)?);
    let state = ClientLogin::<X25519Ristretto255Sha2Argon2>::deserialize(state).map_err(|_| Other)?;
    let response = CredentialResponse::<X25519Ristretto255Sha2Argon2>::deserialize(response).map_err(|_| Other)?;
    match state.finish(password, response, ClientLoginFinishParameters::new(None, Identifiers::default(), Some(&ksf))) {
        Ok(r) => Ok((r.message.serialize().to_vec(), r.export_key.to_vec(), r.server_s_pk.serialize().to_vec())),
        Err(ProtocolError::InvalidLoginError) => Err(InvalidLogin),
        Err(_) => Err(Other),
    }
}

/// Relies on `opaque_ke::ServerLogin::finish` for [`X25519Ristretto255Sha2Argon2`]: checks the
/// client's key-exchange MAC; it draws no randomness.
#[verifier::external_body]
pub(crate) fn server_login_finish_x25519_ristretto255(state: &[u8], finalization: &[u8]) -> (r: Result<(), OpaqueFailure>)
    ensures
        r is Ok == login_accepted_of(1u8, state@, finalization@),
        r matches Err(e) ==> e == OpaqueFailure::Other,
{
    let state = ServerLogin::<X25519Ristretto255Sha2Argon2>::deserialize(state).map_err(|_| Other)?;
    let finalization = CredentialFinalization::<X25519Ristretto255Sha2Argon2>::deserialize(finalization).map_err(|_| Other)?;
    state.finish(finalization).map_err(|_| Other)?;
    Ok(())
}

/// Relies on `opaque_ke::ServerSetup::new` for [`P256Ristretto255Sha2Argon2`]: a fresh OPRF seed
/// (64 bytes), server key pair and fake key pair (32-byte private keys),
/// drawn from `OsRng`; returns the serialised setup and the public key
/// (`keypair().public()`), which is 33 bytes long in this group.
#[verifier::external_body]
pub(crate) fn server_setup_p256_ristretto255() -> (r: (Vec<u8>, Vec<u8>))
    ensures
        r.0@.len() == 128,
        r.1@.len() == 33,
        setup_public_key_of(2u8, r.0@) == Some(r.1@),
{
    let setup = ServerSetup::<P256Ristretto255Sha2Argon2>::new(&mut OsRng);
    (setup.serialize().to_vec(), setup.keypair().public().serialize().to_vec())
}

/// Relies on `opaque_ke::ServerSetup::deserialize` for [`P256Ristretto255Sha2Argon2`]: the
/// public key (`keypair().public()`) of a serialised setup.
#[verifier::external_body]
pub(crate) fn setup_public_key_p256_ristretto255(setup: &[u8]) -> (r: Option<Vec<u8>>)
    ensures
        setup_public_key_of(2u8, setup@) == match r {
            Some(v) => Some(v@),
            None => None,
        },
{
    let setup = ServerSetup::<P256Ristretto255Sha2Argon2>::deserialize(setup).ok()?;
    Some(setup.keypair().public().serialize().to_vec())
}

/// Relies on `opaque_ke::ClientRegistration::start` for [`P256Ristretto255Sha2Argon2`]: blinds the
/// password with randomness from `OsRng`; returns the state and the request.
#[verifier::external_body]
pub(crate) fn client_registration_start_p256_ristretto255(password: &[u8]) -> (r: Result<(Vec<u8>, Vec<u8>), OpaqueFailure>)
    ensures
        r matches Ok((state, request)) ==> registration_start_outcome(2u8, password@, state@, request@),
{
    let result = ClientRegistration::<P256Ristretto255Sha2Argon2>::start(&mut OsRng, password).map_err(|_| Other)?;
    Ok((result.state.serialize().to_vec(), result.message.serialize().to_vec()))
}

/// Relies on `opaque_ke::ServerRegistration::start` for [`P256Ristretto255Sha2Argon2`] with an
/// empty credential identifier; it draws no randomness.
#[verifier::external_body]
pub(crate) fn server_registration_start_p256_ristretto255(setup: &[u8], request: &[u8]) -> (r: Result<Vec<u8>, OpaqueFailure>)
    ensures
        r is Ok == registration_response_of(2u8, setup@, request@) is Some,
        r matches Ok(v) ==> v@ == registration_response_of(2u8, setup@, request@)->0,
        r matches Ok(v) ==> Some(response_server_key_of(2u8, v@)) == setup_public_key_of(2u8, setup@),
        r matches Err(e) ==> e == OpaqueFailure::Other,
{
    let setup = ServerSetup::<P256Ristretto255Sha2Argon2>::deserialize(setup).map_err(|_| Other)?;
    let request = RegistrationRequest::<P256Ristretto255Sha2Argon2>::deserialize(request).map_err(|_| Other)?;
    let result = ServerRegistration::start(&setup, request, &[]).map_err(|_| Other)?;
    Ok(result.message.serialize().to_vec())
}

/// Relies on `opaque_ke::ServerRegistration::finish` for [`P256Ristretto255Sha2Argon2`]: the
/// record is the client's upload, read back and serialised again.
#[verifier::external_body]
pub(crate) fn server_registration_finish_p256_ristretto255(upload: &[u8]) -> (r: Result<Vec<u8>, OpaqueFailure>)
    ensures
        r is Ok == registration_record_of(2u8, upload@) is Some,
        r matches Ok(v) ==> v@ == registration_record_of(2u8, upload@)->0,
        r matches Err(e) ==> e == OpaqueFailure::Other,
{
    let upload = RegistrationUpload::<P256Ristretto255Sha2Argon2>::deserialize(upload).map_err(|_| Other)?;
    Ok(ServerRegistration::finish(upload).serialize().to_vec())
}

/// Relies on `opaque_ke::ClientRegistration::finish` for [`P256Ristretto255Sha2Argon2`], with the
/// stretching built by `argon2::Params::new` (no output length) and
/// `argon2::Argon2::new` (default version) from the given variant (Argon2id
/// or Argon2d) and costs; it fails, as `Other`, where those are refused.
/// Returns the
/// upload, the export key (one SHA-512 output, 64 bytes) and the
/// server's public key (33 bytes).
#[verifier::external_body]
pub(crate) fn client_registration_finish_p256_ristretto255(
    state: &[u8],
    password: &[u8],
    response: &[u8],
    algorithm: Algorithm,
    m_cost: u32,
    t_cost: u32,
    p_cost: u32,
) -> (r: Result<(Vec<u8>, Vec<u8>, Vec<u8>), OpaqueFailure>)
    requires
        argon2_costs_valid(m_cost, t_cost, p_cost),
        algorithm != Algorithm::Argon2i,
    ensures
        (r matches Ok(out) ==> out.1@.len() == 64 && out.2@.len() == 33),
        (r matches Ok(out) ==> out.2@ == response_server_key_of(2u8, response@)),
        (r matches Err(e) ==> e == OpaqueFailure::Other),
{
    let ksf = Argon2::new(algorithm, Version::default(), Params::new(m_cost, t_cost, p_cost, None).map_err(|_| Other)?);
    let state = ClientRegistration::<P256Ristretto255Sha2Argon2>::deserialize(state).map_err(|_| Other)?;
    let response = RegistrationResponse::<P256Ristretto255Sha2Argon2>::deserialize(response).map_err(|_| Other)?;
    let params = ClientRegistrationFinishParameters::new(Identifiers::default(), Some(&ksf));
    let result = state.finish(&mut OsRng, password, response, params).map_err(|_| Other)?;
    Ok((result.message.serialize().to_vec(), result.export_key.to_vec(), result.server_s_pk.serialize().to_vec()))
}

/// Relies on `opaque_ke::ClientLogin::start` for [`P256Ristretto255Sha2Argon2`]: blinds the password
/// and starts the key exchange with randomness from `OsRng`.
#[verifier::external_body]
pub(crate) fn client_login_start_p256_ristretto255(password: &[u8]) -> (r: Result<(Vec<u8>, Vec<u8>), OpaqueFailure>)
    ensures
        r matches Ok((state, request)) ==> login_request_outcome(2u8, password@, state@, request@),
{
    let result = ClientLogin::<P256Ristretto255Sha2Argon2>::start(&mut OsRng, password).map_err(|_| Other)?;
    Ok((result.state.serialize().to_vec(), result.message.serialize().to_vec()))
}

/// Relies on `opaque_ke::ServerLogin::start` for [`P256Ristretto255Sha2Argon2`] with an empty
/// credential identifier; without a record it answers with a simulated one.
#[verifier::external_body]
pub(crate) fn server_login_start_p256_ristretto255(setup: &[u8], file: Option<&[u8]>, request: &[u8]) -> (r: Result<(Vec<u8>, Vec<u8>), OpaqueFailure>)
    ensures
        r matches Ok((state, response)) ==> login_start_outcome(
            2u8,
            setup@,
            match file { Some(f) => Some(f@), None => None },
            request@,
            state@,
            response@,
        ),
{
    let setup = ServerSetup::<P256Ristretto255Sha2Argon2>::deserialize(setup).map_err(|_| Other)?;
    let file = file.map(ServerRegistration::<P256Ristretto255Sha2Argon2>::deserialize).transpose().map_err(|_| Other)?;
    let request = CredentialRequest::<P256Ristretto255Sha2Argon2>::deserialize(request).map_err(|_| Other)?;
    let result = ServerLogin::start(&mut OsRng, &setup, file, request, &[], ServerLoginStartParameters::default()).map_err(|_| Other)?;
    Ok((result.state.serialize().to_vec(), result.message.serialize().to_vec()))
}

/// Relies on `opaque_ke::ClientLogin::finish` for [`P256Ristretto255Sha2Argon2`], with the
/// stretching built by `argon2::Params::new` (no output length) and
/// `argon2::Argon2::new` (default version) from the given variant (Argon2id
/// or Argon2d) and costs; none of them draws randomness. On success: the finalization, the export key (64 bytes) and
/// the server's public key (33 bytes).
#[verifier::external_body]
pub(crate) fn client_login_finish_p256_ristretto255(
    state: &[u8],
    password: &[u8],
    response: &[u8],
    algorithm: Algorithm,
    m_cost: u32,
    t_cost: u32,
    p_cost: u32,
) -> (r: Result<(Vec<u8>, Vec<u8>, Vec<u8>), OpaqueFailure>)
    requires
        argon2_costs_valid(m_cost, t_cost, p_cost),
        algorithm != Algorithm::Argon2i,
    ensures
        outcome_model(r) == failure_of(
            login_outcome_of(2u8, state@, password@, response@, algorithm == Algorithm::Argon2d, m_cost, t_cost, p_cost),
        ),
        (r matches Ok(out) ==> out.1@.len() == 64 && out.2@.len() == 33),
{
    let ksf = Argon2::new(algorithm, Version::default(), Params::new(m_cost, t_cost, p_cost, None).map_err(|_| Other)?);
    let state = ClientLogin::<P256Ristretto255Sha2Argon2>::deserialize(state).map_err(|_| Other)?;
    let response = CredentialResponse::<P256Ristretto255Sha2Argon2>::deserialize(response).map_err(|_| Other)?;
    match state.finish(password, response, ClientLoginFinishParameters::new(None, Identifiers::default(), Some(&ksf))) {
        Ok(r) => Ok((r.message.serialize().to_vec(), r.export_key.to_vec(), r.server_s_pk.serialize().to_vec())),
        Err(ProtocolError::InvalidLoginError) => Err(InvalidLogin),
        Err(_) => Err(Other),
    }
}

/// Relies on `opaque_ke::ServerLogin::finish` for [`P256Ristretto255Sha2Argon2`]: checks the
/// client's key-exchange MAC; it draws no randomness.
#[verifier::external_body]
pub(crate) fn server_login_finish_p256_ristretto255(state: &[u8], finalization: &[u8]) -> (r: Result<(), OpaqueFailure>)
    ensures
        r is Ok == login_accepted_of(2u8, state@, finalization@),
        r matches Err(e) ==> e == OpaqueFailure::Other,
{
    let state = ServerLogin::<P256Ristretto255Sha2Argon2>::deserialize(state).map_err(|_| Other)?;
    let finalization = CredentialFinalization::<P256Ristretto255Sha2Argon2>::deserialize(finalization).map_err(|_| Other)?;
    state.finish(finalization).map_err(|_| Other)?;
    Ok(())
}

/// Relies on `opaque_ke::ServerSetup::new` for [`Ristretto255P256Sha2Argon2`]: a fresh OPRF seed
/// (32 bytes), server key pair and fake key pair (32-byte private keys),
/// drawn from `OsRng`; returns the serialised setup and the public key
/// (`keypair().public()`), which is 32 bytes long in this group.
#[verifier::external_body]
pub(crate) fn server_setup_ristretto255_p256() -> (r: (Vec<u8>, Vec<u8>))
    ensures
        r.0@.len() == 96,
        r.1@.len() == 32,
        setup_public_key_of(3u8, r.0@) == Some(r.1@),
{
    let setup = ServerSetup::<Ristretto255P256Sha2Argon2>::new(&mut OsRng);
    (setup.serialize().to_vec(), setup.keypair().public().serialize().to_vec())
}

/// Relies on `opaque_ke::ServerSetup::deserialize` for [`Ristretto255P256Sha2Argon2`]: the
/// public key (`keypair().public()`) of a serialised setup.
#[verifier::external_body]
pub(crate) fn setup_public_key_ristretto255_p256(setup: &[u8]) -> (r: Option<Vec<u8>>)
    ensures
        setup_public_key_of(3u8, setup@) == match r {
            Some(v) => Some(v@),
            None => None,
        },
{
    let setup = ServerSetup::<Ristretto255P256Sha2Argon2>::deserialize(setup).ok()?;
    Some(setup.keypair().public().serialize().to_vec())
}

/// Relies on `opaque_ke::ClientRegistration::start` for [`Ristretto255P256Sha2Argon2`]: blinds the
/// password with randomness from `OsRng`; returns the state and the request.
#[verifier::external_body]
pub(crate) fn client_registration_start_ristretto255_p256(password: &[u8]) -> (r: Result<(Vec<u8>, Vec<u8>), OpaqueFailure>)
    ensures
        r matches Ok((state, request)) ==> registration_start_outcome(3u8, password@, state@, request@),
{
    let result = ClientRegistration::<Ristretto255P256Sha2Argon2>::start(&mut OsRng, password).map_err(|_| Other)?;
    Ok((result.state.serialize().to_vec(), result.message.serialize().to_vec()))
}

/// Relies on `opaque_ke::ServerRegistration::start` for [`Ristretto255P256Sha2Argon2`] with an
/// empty credential identifier; it draws no randomness.
#[verifier::external_body]
pub(crate) fn server_registration_start_ristretto255_p256(setup: &[u8], request: &[u8]) -> (r: Result<Vec<u8>, OpaqueFailure>)
    ensures
        r is Ok == registration_response_of(3u8, setup@, request@) is Some,
        r matches Ok(v) ==> v@ == registration_response_of(3u8, setup@, request@)->0,
        r matches Ok(v) ==> Some(response_server_key_of(3u8, v@)) == setup_public_key_of(3u8, setup@),
        r matches Err(e) ==> e == OpaqueFailure::Other,
{
    let setup = ServerSetup::<Ristretto255P256Sha2Argon2>::deserialize(setup).map_err(|_| Other)?;
    let request = RegistrationRequest::<Ristretto255P256Sha2Argon2>::deserialize(request).map_err(|_| Other)?;
    let result = ServerRegistration::start(&setup, request, &[]).map_err(|_| Other)?;
    Ok(result.message.serialize().to_vec())
}

/// Relies on `opaque_ke::ServerRegistration::finish` for [`Ristretto255P256Sha2Argon2`]: the
/// record is the client's upload, read back and serialised again.
#[verifier::external_body]
pub(crate) fn server_registration_finish_ristretto255_p256(upload: &[u8]) -> (r: Result<Vec<u8>, OpaqueFailure>)
    ensures
        r is Ok == registration_record_of(3u8, upload@) is Some,
        r matches Ok(v) ==> v@ == registration_record_of(3u8, upload@)->0,
        r matches Err(e) ==> e == OpaqueFailure::Other,
{
    let upload = RegistrationUpload::<Ristretto255P256Sha2Argon2>::deserialize(upload).map_err(|_| Other)?;
    Ok(ServerRegistration::finish(upload).serialize().to_vec())
}

/// Relies on `opaque_ke::ClientRegistration::finish` for [`Ristretto255P256Sha2Argon2`], with the
/// stretching built by `argon2::Params::new` (no output length) and
/// `argon2::Argon2::new` (default version) from the given variant (Argon2id
/// or Argon2d) and costs; it fails, as `Other`, where those are refused.
/// Returns the
/// upload, the export key (one SHA-256 output, 32 bytes) and the
/// server's public key (32 bytes).
#[verifier::external_body]
pub(crate) fn client_registration_finish_ristretto255_p256(
    state: &[u8],
    password: &[u8],
    response: &[u8],
    algorithm: Algorithm,
    m_cost: u32,
    t_cost: u32,
    p_cost: u32,
) -> (r: Result<(Vec<u8>, Vec<u8>, Vec<u8>), OpaqueFailure>)
    requires
        argon2_costs_valid(m_cost, t_cost, p_cost),
        algorithm != Algorithm::Argon2i,
    ensures
        (r matches Ok(out) ==> out.1@.len() == 32 && out.2@.len() == 32),
        (r matches Ok(out) ==> out.2@ == response_server_key_of(3u8, response@)),
        (r matches Err(e) ==> e == OpaqueFailure::Other),
{
    let ksf = Argon2::new(algorithm, Version::default(), Params::new(m_cost, t_cost, p_cost, None).map_err(|_| Other)?);
    let state = ClientRegistration::<Ristretto255P256Sha2Argon2>::deserialize(state).map_err(|_| Other)?;
    let response = RegistrationResponse::<Ristretto255P256Sha2Argon2>::deserialize(response).map_err(|_| Other)?;
    let params = ClientRegistrationFinishParameters::new(Identifiers::default(), Some(&ksf));
    let result = state.finish(&mut OsRng, password, response, params).map_err(|_| Other)?;
    Ok((result.message.serialize().to_vec(), result.export_key.to_vec(), result.server_s_pk.serialize().to_vec()))
}

/// Relies on `opaque_ke::ClientLogin::start` for [`Ristretto255P256Sha2Argon2`]: blinds the password
/// and starts the key exchange with randomness from `OsRng`.
#[verifier::external_body]
pub(crate) fn client_login_start_ristretto255_p256(password: &[u8]) -> (r: Result<(Vec<u8>, Vec<u8>), OpaqueFailure>)
    ensures
        r matches Ok((state, request)) ==> login_request_outcome(3u8, password@, state@, request@),
{
    let result = ClientLogin::<Ristretto255P256Sha2Argon2>::start(&mut OsRng, password).map_err(|_| Other)?;
    Ok((result.state.serialize().to_vec(), result.message.serialize().to_vec()))
}

/// Relies on `opaque_ke::ServerLogin::start` for [`Ristretto255P256Sha2Argon2`] with an empty
/// credential identifier; without a record it answers with a simulated one.
#[verifier::external_body]
pub(crate) fn server_login_start_ristretto255_p256(setup: &[u8], file: Option<&[u8]>, request: &[u8]) -> (r: Result<(Vec<u8>, Vec<u8>), OpaqueFailure>)
    ensures
        r matches Ok((state, response)) ==> login_start_outcome(
            3u8,
            setup@,
            match file { Some(f) => Some(f@), None => None },
            request@,
            state@,
            response@,
        ),
{
    let setup = ServerSetup::<Ristretto255P256Sha2Argon2>::deserialize(setup).map_err(|_| Other)?;
    let file = file.map(ServerRegistration::<Ristretto255P256Sha2Argon2>::deserialize).transpose().map_err(|_| Other)?;
    let request = CredentialRequest::<Ristretto255P256Sha2Argon2>::deserialize(request).map_err(|_| Other)?;
    let result = ServerLogin::start(&mut OsRng, &setup, file, request, &[], ServerLoginStartParameters::default()).map_err(|_| Other)?;
    Ok((result.state.serialize().to_vec(), result.message.serialize().to_vec()))
}

/// Relies on `opaque_ke::ClientLogin::finish` for [`Ristretto255P256Sha2Argon2`], with the
/// stretching built by `argon2::Params::new` (no output length) and
/// `argon2::Argon2::new` (default version) from the given variant (Argon2id
/// or Argon2d) and costs; none of them draws randomness. On success: the finalization, the export key (32 bytes) and
/// the server's public key (32 bytes).
#[verifier::external_body]
pub(crate) fn client_login_finish_ristretto255_p256(
    state: &[u8],
    password: &[u8],
    response: &[u8],
    algorithm: Algorithm,
    m_cost: u32,
    t_cost: u32,
    p_cost: u32,
) -> (r: Result<(Vec<u8>, Vec<u8>, Vec<u8>), OpaqueFailure>)
    requires
        argon2_costs_valid(m_cost, t_cost, p_cost),
        algorithm != Algorithm::Argon2i,
    ensures
        outcome_model(r) == failure_of(
            login_outcome_of(3u8, state@, password@, response@, algorithm == Algorithm::Argon2d, m_cost, t_cost, p_cost),
        ),
        (r matches Ok(out) ==> out.1@.len() == 32 && out.2@.len() == 32),
{
    let ksf = Argon2::new(algorithm, Version::default(), Params::new(m_cost, t_cost, p_cost, None).map_err(|_| Other)?);
    let state = ClientLogin::<Ristretto255P256Sha2Argon2>::deserialize(state).map_err(|_| Other)?;
    let response = CredentialResponse::<Ristretto255P256Sha2Argon2>::deserialize(response).map_err(|_| Other)?;
    match state.finish(password, response, ClientLoginFinishParameters::new(None, Identifiers::default(), Some(&ksf))) {
        Ok(r) => Ok((r.message.serialize().to_vec(), r.export_key.to_vec(), r.server_s_pk.serialize().to_vec())),
        Err(ProtocolError::InvalidLoginError) => Err(InvalidLogin),
        Err(_) => Err(Other),
    }
}

/// Relies on `opaque_ke::ServerLogin::finish` for [`Ristretto255P256Sha2Argon2`]: checks the
/// client's key-exchange MAC; it draws no randomness.
#[verifier::external_body]
pub(crate) fn server_login_finish_ristretto255_p256(state: &[u8], finalization: &[u8]) -> (r: Result<(), OpaqueFailure>)
    ensures
        r is Ok == login_accepted_of(3u8, state@, finalization@),
        r matches Err(e) ==> e == OpaqueFailure::Other,
{
    let state = ServerLogin::<Ristretto255P256Sha2Argon2>::deserialize(state).map_err(|_| Other)?;
    let finalization = CredentialFinalization::<Ristretto255P256Sha2Argon2>::deserialize(finalization).map_err(|_| Other)?;
    state.finish(finalization).map_err(|_| Other)?;
    Ok(())
}

/// Relies on `opaque_ke::ServerSetup::new` for [`X25519P256Sha2Argon2`]: a fresh OPRF seed
/// (32 bytes), server key pair and fake key pair (32-byte private keys),
/// drawn from `OsRng`; returns the serialised setup and the public key
/// (`keypair().public()`), which is 32 bytes long in this group.
#[verifier::external_body]
pub(crate) fn server_setup_x25519_p256() -> (r: (Vec<u8>, Vec<u8>))
    ensures
        r.0@.len() == 96,
        r.1@.len() == 32,
        setup_public_key_of(4u8, r.0@) == Some(r.1@),
{
    let setup = ServerSetup::<X25519P256Sha2Argon2>::new(&mut OsRng);
    (setup.serialize().to_vec(), setup.keypair().public().serialize().to_vec())
}

/// Relies on `opaque_ke::ServerSetup::deserialize` for [`X25519P256Sha2Argon2`]: the
/// public key (`keypair().public()`) of a serialised setup.
#[verifier::external_body]
pub(crate) fn setup_public_key_x25519_p256(setup: &[u8]) -> (r: Option<Vec<u8>>)
    ensures
        setup_public_key_of(4u8, setup@) == match r {
            Some(v) => Some(v@),
            None => None,
        },
{
    let setup = ServerSetup::<X25519P256Sha2Argon2>::deserialize(setup).ok()?;
    Some(setup.keypair().public().serialize().to_vec())
}

/// Relies on `opaque_ke::ClientRegistration::start` for [`X25519P256Sha2Argon2`]: blinds the
/// password with randomness from `OsRng`; returns the state and the request.
#[verifier::external_body]
pub(crate) fn client_registration_start_x25519_p256(password: &[u8]) -> (r: Result<(Vec<u8>, Vec<u8>), OpaqueFailure>)
    ensures
        r matches Ok((state, request)) ==> registration_start_outcome(4u8, password@, state@, request@),
{
    let result = ClientRegistration::<X25519P256Sha2Argon2>::start(&mut OsRng, password).map_err(|_| Other)?;
    Ok((result.state.serialize().to_vec(), result.message.serialize().to_vec()))
}

/// Relies on `opaque_ke::ServerRegistration::start` for [`X25519P256Sha2Argon2`] with an
/// empty credential identifier; it draws no randomness.
#[verifier::external_body]
pub(crate) fn server_registration_start_x25519_p256(setup: &[u8], request: &[u8]) -> (r: Result<Vec<u8>, OpaqueFailure>)
    ensures
        r is Ok == registration_response_of(4u8, setup@, request@) is Some,
        r matches Ok(v) ==> v@ == registration_response_of(4u8, setup@, request@)->0,
        r matches Ok(v) ==> Some(response_server_key_of(4u8, v@)) == setup_public_key_of(4u8, setup@),
        r matches Err(e) ==> e == OpaqueFailure::Other,
{
    let setup = ServerSetup::<X25519P256Sha2Argon2>::deserialize(setup).map_err(|_| Other)?;
    let request = RegistrationRequest::<X25519P256Sha2Argon2>::deserialize(request).map_err(|_| Other)?;
    let result = ServerRegistration::start(&setup, request, &[]).map_err(|_| Other)?;
    Ok(result.message.serialize().to_vec())
}

/// Relies on `opaque_ke::ServerRegistration::finish` for [`X25519P256Sha2Argon2`]: the
/// record is the client's upload, read back and serialised again.
#[verifier::external_body]
pub(crate) fn server_registration_finish_x25519_p256(upload: &[u8]) -> (r: Result<Vec<u8>, OpaqueFailure>)
    ensures
        r is Ok == registration_record_of(4u8, upload@) is Some,
        r matches Ok(v) ==> v@ == registration_record_of(4u8, upload@)->0,
        r matches Err(e) ==> e == OpaqueFailure::Other,
{
    let upload = RegistrationUpload::<X25519P256Sha2Argon2>::deserialize(upload).map_err(|_| Other)?;
    Ok(ServerRegistration::finish(upload).serialize().to_vec())
}

/// Relies on `opaque_ke::ClientRegistration::finish` for [`X25519P256Sha2Argon2`], with the
/// stretching built by `argon2::Params::new` (no output length) and
/// `argon2::Argon2::new` (default version) from the given variant (Argon2id
/// or Argon2d) and costs; it fails, as `Other`, where those are refused.
/// Returns the
/// upload, the export key (one SHA-256 output, 32 bytes) and the
/// server's public key (32 bytes).
#[verifier::external_body]
pub(crate) fn client_registration_finish_x25519_p256(
    state: &[u8],
    password: &[u8],
    response: &[u8],
    algorithm: Algorithm,
    m_cost: u32,
    t_cost: u32,
    p_cost: u32,
) -> (r: Result<(Vec<u8>, Vec<u8>, Vec<u8>), OpaqueFailure>)
    requires
        argon2_costs_valid(m_cost, t_cost, p_cost),
        algorithm != Algorithm::Argon2i,
    ensures
        (r matches Ok(out) ==> out.1@.len() == 32 && out.2@.len() == 32),
        (r matches Ok(out) ==> out.2@ == response_server_key_of(4u8, response@)),
        (r matches Err(e) ==> e == OpaqueFailure::Other),
{
    let ksf = Argon2::new(algorithm, Version::default(), Params::new(m_cost, t_cost, p_cost, None).map_err(|_| Other)?);
    let state = ClientRegistration::<X25519P256Sha2Argon2>::deserialize(state).map_err(|_| Other)?;
    let response = RegistrationResponse::<X25519P256Sha2Argon2>::deserialize(response).map_err(|_| Other)?;
    let params = ClientRegistrationFinishParameters::new(Identifiers::default(), Some(&ksf));
    let result = state.finish(&mut OsRng, password, response, params).map_err(|_| Other)?;
    Ok((result.message.serialize().to_vec(), result.export_key.to_vec(), result.server_s_pk.serialize().to_vec()))
}

/// Relies on `opaque_ke::ClientLogin::start` for [`X25519P256Sha2Argon2`]: blinds the password
/// and starts the key exchange with randomness from `OsRng`.
#[verifier::external_body]
pub(crate) fn client_login_start_x25519_p256(password: &[u8]) -> (r: Result<(Vec<u8>, Vec<u8>), OpaqueFailure>)
    ensures
        r matches Ok((state, request)) ==> login_request_outcome(4u8, password@, state@, request@),
{
    let result = ClientLogin::<X25519P256Sha2Argon2>::start(&mut OsRng, password).map_err(|_| Other)?;
    Ok((result.state.serialize().to_vec(), result.message.serialize().to_vec()))
}

/// Relies on `opaque_ke::ServerLogin::start` for [`X25519P256Sha2Argon2`] with an empty
/// credential identifier; without a record it answers with a simulated one.
#[verifier::external_body]
pub(crate) fn server_login_start_x25519_p256(setup: &[u8], file: Option<&[u8]>, request: &[u8]) -> (r: Result<(Vec<u8>, Vec<u8>), OpaqueFailure>)
    ensures
        r matches Ok((state, response)) ==> login_start_outcome(
            4u8,
            setup@,
            match file { Some(f) => Some(f@), None => None },
            request@,
            state@,
            response@,
        ),
{
    let setup = ServerSetup::<X25519P256Sha2Argon2>::deserialize(setup).map_err(|_| Other)?;
    let file = file.map(ServerRegistration::<X25519P256Sha2Argon2>::deserialize).transpose().map_err(|_| Other)?;
    let request = CredentialRequest::<X25519P256Sha2Argon2>::deserialize(request).map_err(|_| Other)?;
    let result = ServerLogin::start(&mut OsRng, &setup, file, request, &[], ServerLoginStartParameters::default()).map_err(|_| Other)?;
    Ok((result.state.serialize().to_vec(), result.message.serialize().to_vec()))
}

/// Relies on `opaque_ke::ClientLogin::finish` for [`X25519P256Sha2Argon2`], with the
/// stretching built by `argon2::Params::new` (no output length) and
/// `argon2::Argon2::new` (default version) from the given variant (Argon2id
/// or Argon2d) and costs; none of them draws randomness. On success: the finalization, the export key (32 bytes) and
/// the server's public key (32 bytes).
#[verifier::external_body]
pub(crate) fn client_login_finish_x25519_p256(
    state: &[u8],
    password: &[u8],
    response: &[u8],
    algorithm: Algorithm,
    m_cost: u32,
    t_cost: u32,
    p_cost: u32,
) -> (r: Result<(Vec<u8>, Vec<u8>, Vec<u8>), OpaqueFailure>)
    requires
        argon2_costs_valid(m_cost, t_cost, p_cost),
        algorithm != Algorithm::Argon2i,
    ensures
        outcome_model(r) == failure_of(
            login_outcome_of(4u8, state@, password@, response@, algorithm == Algorithm::Argon2d, m_cost, t_cost, p_cost),
        ),
        (r matches Ok(out) ==> out.1@.len() == 32 && out.2@.len() == 32),
{
    let ksf = Argon2::new(algorithm, Version::default(), Params::new(m_cost, t_cost, p_cost, None).map_err(|_| Other)?);
    let state = ClientLogin::<X25519P256Sha2Argon2>::deserialize(state).map_err(|_| Other)?;
    let response = CredentialResponse::<X25519P256Sha2Argon2>::deserialize(response).map_err(|_| Other)?;
    match state.finish(password, response, ClientLoginFinishParameters::new(None, Identifiers::default(), Some(&ksf))) {
        Ok(r) => Ok((r.message.serialize().to_vec(), r.export_key.to_vec(), r.server_s_pk.serialize().to_vec())),
        Err(ProtocolError::InvalidLoginError) => Err(InvalidLogin),
        Err(_) => Err(Other),
    }
}

/// Relies on `opaque_ke::ServerLogin::finish` for [`X25519P256Sha2Argon2`]: checks the
/// client's key-exchange MAC; it draws no randomness.
#[verifier::external_body]
pub(crate) fn server_login_finish_x25519_p256(state: &[u8], finalization: &[u8]) -> (r: Result<(), OpaqueFailure>)
    ensures
        r is Ok == login_accepted_of(4u8, state@, finalization@),
        r matches Err(e) ==> e == OpaqueFailure::Other,
{
    let state = ServerLogin::<X25519P256Sha2Argon2>::deserialize(state).map_err(|_| Other)?;
    let finalization = CredentialFinalization::<X25519P256Sha2Argon2>::deserialize(finalization).map_err(|_| Other)?;
    state.finish(finalization).map_err(|_| Other)?;
    Ok(())
}

/// Relies on `opaque_ke::ServerSetup::new` for [`P256Sha2Argon2`]: a fresh OPRF seed
/// (32 bytes), server key pair and fake key pair (32-byte private keys),
/// drawn from `OsRng`; returns the serialised setup and the public key
/// (`keypair().public()`), which is 33 bytes long in this group.
#[verifier::external_body]
pub(crate) fn server_setup_p256() -> (r: (Vec<u8>, Vec<u8>))
    ensures
        r.0@.len() == 96,
        r.1@.len() == 33,
        setup_public_key_of(5u8, r.0@) == Some(r.1@),
{
    let setup = ServerSetup::<P256Sha2Argon2>::new(&mut OsRng);
    (setup.serialize().to_vec(), setup.keypair().public().serialize().to_vec())
}

/// Relies on `opaque_ke::ServerSetup::deserialize` for [`P256Sha2Argon2`]: the
/// public key (`keypair().public()`) of a serialised setup.
#[verifier::external_body]
pub(crate) fn setup_public_key_p256(setup: &[u8]) -> (r: Option<Vec<u8>>)
    ensures
        setup_public_key_of(5u8, setup@) == match r {
            Some(v) => Some(v@),
            None => None,
        },
{
    let setup = ServerSetup::<P256Sha2Argon2>::deserialize(setup).ok()?;
    Some(setup.keypair().public().serialize().to_vec())
}

/// Relies on `opaque_ke::ClientRegistration::start` for [`P256Sha2Argon2`]: blinds the
/// password with randomness from `OsRng`; returns the state and the request.
#[verifier::external_body]
pub(crate) fn client_registration_start_p256(password: &[u8]) -> (r: Result<(Vec<u8>, Vec<u8>), OpaqueFailure>)
    ensures
        r matches Ok((state, request)) ==> registration_start_outcome(5u8, password@, state@, request@),
{
    let result = ClientRegistration::<P256Sha2Argon2>::start(&mut OsRng, password).map_err(|_| Other)?;
    Ok((result.state.serialize().to_vec(), result.message.serialize().to_vec()))
}

/// Relies on `opaque_ke::ServerRegistration::start` for [`P256Sha2Argon2`] with an
/// empty credential identifier; it draws no randomness.
#[verifier::external_body]
pub(crate) fn server_registration_start_p256(setup: &[u8], request: &[u8]) -> (r: Result<Vec<u8>, OpaqueFailure>)
    ensures
        r is Ok == registration_response_of(5u8, setup@, request@) is Some,
        r matches Ok(v) ==> v@ == registration_response_of(5u8, setup@, request@)->0,
        r matches Ok(v) ==> Some(response_server_key_of(5u8, v@)) == setup_public_key_of(5u8, setup@),
        r matches Err(e) ==> e == OpaqueFailure::Other,
{
    let setup = ServerSetup::<P256Sha2Argon2>::deserialize(setup).map_err(|_| Other)?;
    let request = RegistrationRequest::<P256Sha2Argon2>::deserialize(request).map_err(|_| Other)?;
    let result = ServerRegistration::start(&setup, request, &[]).map_err(|_| Other)?;
    Ok(result.message.serialize().to_vec())
}

/// Relies on `opaque_ke::ServerRegistration::finish` for [`P256Sha2Argon2`]: the
/// record is the client's upload, read back and serialised again.
#[verifier::external_body]
pub(crate) fn server_registration_finish_p256(upload: &[u8]) -> (r: Result<Vec<u8>, OpaqueFailure>)
    ensures
        r is Ok == registration_record_of(5u8, upload@) is Some,
        r matches Ok(v) ==> v@ == registration_record_of(5u8, upload@)->0,
        r matches Err(e) ==> e == OpaqueFailure::Other,
{
    let upload = RegistrationUpload::<P256Sha2Argon2>::deserialize(upload).map_err(|_| Other)?;
    Ok(ServerRegistration::finish(upload).serialize().to_vec())
}

/// Relies on `opaque_ke::ClientRegistration::finish` for [`P256Sha2Argon2`], with the
/// stretching built by `argon2::Params::new` (no output length) and
/// `argon2::Argon2::new` (default version) from the given variant (Argon2id
/// or Argon2d) and costs; it fails, as `Other`, where those are refused.
/// Returns the
/// upload, the export key (one SHA-256 output, 32 bytes) and the
/// server's public key (33 bytes).
#[verifier::external_body]
pub(crate) fn client_registration_finish_p256(
    state: &[u8],
    password: &[u8],
    response: &[u8],
    algorithm: Algorithm,
    m_cost: u32,
    t_cost: u32,
    p_cost: u32,
) -> (r: Result<(Vec<u8>, Vec<u8>, Vec<u8>), OpaqueFailure>)
    requires
        argon2_costs_valid(m_cost, t_cost, p_cost),
        algorithm != Algorithm::Argon2i,
    ensures
        (r matches Ok(out) ==> out.1@.len() == 32 && out.2@.len() == 33),
        (r matches Ok(out) ==> out.2@ == response_server_key_of(5u8, response@)),
        (r matches Err(e) ==> e == OpaqueFailure::Other),
{
    let ksf = Argon2::new(algorithm, Version::default(), Params::new(m_cost, t_cost, p_cost, None).map_err(|_| Other)?);
    let state = ClientRegistration::<P256Sha2Argon2>::deserialize(state).map_err(|_| Other)?;
    let response = RegistrationResponse::<P256Sha2Argon2>::deserialize(response).map_err(|_| Other)?;
    let params = ClientRegistrationFinishParameters::new(Identifiers::default(), Some(&ksf));
    let result = state.finish(&mut OsRng, password, response, params).map_err(|_| Other)?;
    Ok((result.message.serialize().to_vec(), result.export_key.to_vec(), result.server_s_pk.serialize().to_vec()))
}

/// Relies on `opaque_ke::ClientLogin::start` for [`P256Sha2Argon2`]: blinds the password
/// and starts the key exchange with randomness from `OsRng`.
#[verifier::external_body]
pub(crate) fn client_login_start_p256(password: &[u8]) -> (r: Result<(Vec<u8>, Vec<u8>), OpaqueFailure>)
    ensures
        r matches Ok((state, request)) ==> login_request_outcome(5u8, password@, state@, request@),
{
    let result = ClientLogin::<P256Sha2Argon2>::start(&mut OsRng, password).map_err(|_| Other)?;
    Ok((result.state.serialize().to_vec(), result.message.serialize().to_vec()))
}

/// Relies on `opaque_ke::ServerLogin::start` for [`P256Sha2Argon2`] with an empty
/// credential identifier; without a record it answers with a simulated one.
#[verifier::external_body]
pub(crate) fn server_login_start_p256(setup: &[u8], file: Option<&[u8]>, request: &[u8]) -> (r: Result<(Vec<u8>, Vec<u8>), OpaqueFailure>)
    ensures
        r matches Ok((state, response)) ==> login_start_outcome(
            5u8,
            setup@,
            match file { Some(f) => Some(f@), None => None },
            request@,
            state@,
            response@,
        ),
{
    let setup = ServerSetup::<P256Sha2Argon2>::deserialize(setup).map_err(|_| Other)?;
    let file = file.map(ServerRegistration::<P256Sha2Argon2>::deserialize).transpose().map_err(|_| Other)?;
    let request = CredentialRequest::<P256Sha2Argon2>::deserialize(request).map_err(|_| Other)?;
    let result = ServerLogin::start(&mut OsRng, &setup, file, request, &[], ServerLoginStartParameters::default()).map_err(|_| Other)?;
    Ok((result.state.serialize().to_vec(), result.message.serialize().to_vec()))
}

/// Relies on `opaque_ke::ClientLogin::finish` for [`P256Sha2Argon2`], with the
/// stretching built by `argon2::Params::new` (no output length) and
/// `argon2::Argon2::new` (default version) from the given variant (Argon2id
/// or Argon2d) and costs; none of them draws randomness. On success: the finalization, the export key (32 bytes) and
/// the server's public key (33 bytes).
#[verifier::external_body]
pub(crate) fn client_login_finish_p256(
    state: &[u8],
    password: &[u8],
    response: &[u8],
    algorithm: Algorithm,
    m_cost: u32,
    t_cost: u32,
    p_cost: u32,
) -> (r: Result<(Vec<u8>, Vec<u8>, Vec<u8>), OpaqueFailure>)
    requires
        argon2_costs_valid(m_cost, t_cost, p_cost),
        algorithm != Algorithm::Argon2i,
    ensures
        outcome_model(r) == failure_of(
            login_outcome_of(5u8, state@, password@, response@, algorithm == Algorithm::Argon2d, m_cost, t_cost, p_cost),
        ),
        (r matches Ok(out) ==> out.1@.len() == 32 && out.2@.len() == 33),
{
    let ksf = Argon2::new(algorithm, Version::default(), Params::new(m_cost, t_cost, p_cost, None).map_err(|_| Other)?);
    let state = ClientLogin::<P256Sha2Argon2>::deserialize(state).map_err(|_| Other)?;
    let response = CredentialResponse::<P256Sha2Argon2>::deserialize(response).map_err(|_| Other)?;
    match state.finish(password, response, ClientLoginFinishParameters::new(None, Identifiers::default(), Some(&ksf))) {
        Ok(r) => Ok((r.message.serialize().to_vec(), r.export_key.to_vec(), r.server_s_pk.serialize().to_vec())),
        Err(ProtocolError::InvalidLoginError) => Err(InvalidLogin),
        Err(_) => Err(Other),
    }
}

/// Relies on `opaque_ke::ServerLogin::finish` for [`P256Sha2Argon2`]: checks the
/// client's key-exchange MAC; it draws no randomness.
#[verifier::external_body]
pub(crate) fn server_login_finish_p256(state: &[u8], finalization: &[u8]) -> (r: Result<(), OpaqueFailure>)
    ensures
        r is Ok == login_accepted_of(5u8, state@, finalization@),
        r matches Err(e) ==> e == OpaqueFailure::Other,
{
    let state = ServerLogin::<P256Sha2Argon2>::deserialize(state).map_err(|_| Other)?;
    let finalization = CredentialFinalization::<P256Sha2Argon2>::deserialize(finalization).map_err(|_| Other)?;
    state.finish(finalization).map_err(|_| Other)?;
    Ok(())
}

} // verus!
