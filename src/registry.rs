//! Dispatch of each protocol step to the suite that a [`Config`](crate::Config)
//! selects.

use argon2::Algorithm;
use vstd::prelude::*;

use crate::config::{
    ake_of, argon2_costs_valid, group_of, public_key_len, raw_export_key_len, server_setup_len,
    suite_code, CipherSuite,
};
use crate::suites::{
    failure_of,
    login_request_outcome,
    login_start_outcome,
    registration_start_outcome,
    response_server_key_of,
    setup_public_key_of,
    login_accepted_of,
    login_outcome_of,
    outcome_model,
    registration_record_of,
    registration_response_of,
    OpaqueFailure,
    server_setup_ristretto255,
    server_setup_x25519_ristretto255,
    server_setup_p256_ristretto255,
    server_setup_ristretto255_p256,
    server_setup_x25519_p256,
    server_setup_p256,
    setup_public_key_ristretto255,
    setup_public_key_x25519_ristretto255,
    setup_public_key_p256_ristretto255,
    setup_public_key_ristretto255_p256,
    setup_public_key_x25519_p256,
    setup_public_key_p256,
    client_registration_start_ristretto255,
    client_registration_start_x25519_ristretto255,
    client_registration_start_p256_ristretto255,
    client_registration_start_ristretto255_p256,
    client_registration_start_x25519_p256,
    client_registration_start_p256,
    server_registration_start_ristretto255,
    server_registration_start_x25519_ristretto255,
    server_registration_start_p256_ristretto255,
    server_registration_start_ristretto255_p256,
    server_registration_start_x25519_p256,
    server_registration_start_p256,
    server_registration_finish_ristretto255,
    server_registration_finish_x25519_ristretto255,
    server_registration_finish_p256_ristretto255,
    server_registration_finish_ristretto255_p256,
    server_registration_finish_x25519_p256,
    server_registration_finish_p256,
    client_registration_finish_ristretto255,
    client_registration_finish_x25519_ristretto255,
    client_registration_finish_p256_ristretto255,
    client_registration_finish_ristretto255_p256,
    client_registration_finish_x25519_p256,
    client_registration_finish_p256,
    client_login_start_ristretto255,
    client_login_start_x25519_ristretto255,
    client_login_start_p256_ristretto255,
    client_login_start_ristretto255_p256,
    client_login_start_x25519_p256,
    client_login_start_p256,
    server_login_start_ristretto255,
    server_login_start_x25519_ristretto255,
    server_login_start_p256_ristretto255,
    server_login_start_ristretto255_p256,
    server_login_start_x25519_p256,
    server_login_start_p256,
    client_login_finish_ristretto255,
    client_login_finish_x25519_ristretto255,
    client_login_finish_p256_ristretto255,
    client_login_finish_ristretto255_p256,
    client_login_finish_x25519_p256,
    client_login_finish_p256,
    server_login_finish_ristretto255,
    server_login_finish_x25519_ristretto255,
    server_login_finish_p256_ristretto255,
    server_login_finish_ristretto255_p256,
    server_login_finish_x25519_p256,
    server_login_finish_p256,
};

verus! {

/// A fresh server setup of the suite and its public key.
pub(crate) fn server_setup(suite: CipherSuite) -> (r: (Vec<u8>, Vec<u8>))
    ensures
        r.0@.len() == server_setup_len(group_of(suite)),
        r.1@.len() == public_key_len(ake_of(suite)),
        setup_public_key_of(suite_code(suite), r.0@) == Some(r.1@),
{
    match suite {
        CipherSuite::Ristretto255Sha2Argon2 => server_setup_ristretto255(),
        CipherSuite::X25519Ristretto255Sha2Argon2 => server_setup_x25519_ristretto255(),
        CipherSuite::P256Ristretto255Sha2Argon2 => server_setup_p256_ristretto255(),
        CipherSuite::Ristretto255P256Sha2Argon2 => server_setup_ristretto255_p256(),
        CipherSuite::X25519P256Sha2Argon2 => server_setup_x25519_p256(),
        CipherSuite::P256Sha2Argon2 => server_setup_p256(),
    }
}

/// The public key of a serialised setup, if it deserialises.
pub(crate) fn setup_public_key(suite: CipherSuite, setup: &[u8]) -> (r: Option<Vec<u8>>)
    ensures
        setup_public_key_of(suite_code(suite), setup@) == match r {
            Some(v) => Some(v@),
            None => None,
        },
{
    match suite {
        CipherSuite::Ristretto255Sha2Argon2 => setup_public_key_ristretto255(setup),
        CipherSuite::X25519Ristretto255Sha2Argon2 => setup_public_key_x25519_ristretto255(setup),
        CipherSuite::P256Ristretto255Sha2Argon2 => setup_public_key_p256_ristretto255(setup),
        CipherSuite::Ristretto255P256Sha2Argon2 => setup_public_key_ristretto255_p256(setup),
        CipherSuite::X25519P256Sha2Argon2 => setup_public_key_x25519_p256(setup),
        CipherSuite::P256Sha2Argon2 => setup_public_key_p256(setup),
    }
}

/// Starts a registration on the client: the state and the request.
pub(crate) fn client_registration_start(suite: CipherSuite, password: &[u8]) -> (r: Result<(Vec<u8>, Vec<u8>), OpaqueFailure>)
    ensures
        r matches Ok((state, request)) ==> registration_start_outcome(suite_code(suite), password@, state@, request@),
{
    match suite {
        CipherSuite::Ristretto255Sha2Argon2 => client_registration_start_ristretto255(password),
        CipherSuite::X25519Ristretto255Sha2Argon2 => client_registration_start_x25519_ristretto255(password),
        CipherSuite::P256Ristretto255Sha2Argon2 => client_registration_start_p256_ristretto255(password),
        CipherSuite::Ristretto255P256Sha2Argon2 => client_registration_start_ristretto255_p256(password),
        CipherSuite::X25519P256Sha2Argon2 => client_registration_start_x25519_p256(password),
        CipherSuite::P256Sha2Argon2 => client_registration_start_p256(password),
    }
}

/// Answers a registration request on the server.
pub(crate) fn server_registration_start(suite: CipherSuite, setup: &[u8], request: &[u8]) -> (r: Result<Vec<u8>, OpaqueFailure>)
    ensures
        r is Ok == registration_response_of(suite_code(suite), setup@, request@) is Some,
        r matches Ok(v) ==> v@ == registration_response_of(suite_code(suite), setup@, request@)->0,
        r matches Ok(v) ==> Some(response_server_key_of(suite_code(suite), v@))
            == setup_public_key_of(suite_code(suite), setup@),
        r matches Err(e) ==> e == OpaqueFailure::Other,
{
    match suite {
        CipherSuite::Ristretto255Sha2Argon2 => server_registration_start_ristretto255(setup, request),
        CipherSuite::X25519Ristretto255Sha2Argon2 => server_registration_start_x25519_ristretto255(setup, request),
        CipherSuite::P256Ristretto255Sha2Argon2 => server_registration_start_p256_ristretto255(setup, request),
        CipherSuite::Ristretto255P256Sha2Argon2 => server_registration_start_ristretto255_p256(setup, request),
        CipherSuite::X25519P256Sha2Argon2 => server_registration_start_x25519_p256(setup, request),
        CipherSuite::P256Sha2Argon2 => server_registration_start_p256(setup, request),
    }
}

/// Turns a client's upload into the record the server stores.
pub(crate) fn server_registration_finish(suite: CipherSuite, upload: &[u8]) -> (r: Result<Vec<u8>, OpaqueFailure>)
    ensures
        r is Ok == registration_record_of(suite_code(suite), upload@) is Some,
        r matches Ok(v) ==> v@ == registration_record_of(suite_code(suite), upload@)->0,
        r matches Err(e) ==> e == OpaqueFailure::Other,
{
    match suite {
        CipherSuite::Ristretto255Sha2Argon2 => server_registration_finish_ristretto255(upload),
        CipherSuite::X25519Ristretto255Sha2Argon2 => server_registration_finish_x25519_ristretto255(upload),
        CipherSuite::P256Ristretto255Sha2Argon2 => server_registration_finish_p256_ristretto255(upload),
        CipherSuite::Ristretto255P256Sha2Argon2 => server_registration_finish_ristretto255_p256(upload),
        CipherSuite::X25519P256Sha2Argon2 => server_registration_finish_x25519_p256(upload),
        CipherSuite::P256Sha2Argon2 => server_registration_finish_p256(upload),
    }
}

/// Finishes a registration on the client: the upload, the raw export key and
/// the server's public key.
pub(crate) fn client_registration_finish(
    suite: CipherSuite,
    state: &[u8],
    password: &[u8],
    response: &[u8],
    algorithm: Algorithm,
    m_cost: u32,
    t_cost: u32,
    p_cost: u32,
) -> (r: Result<(Vec<u8>, Vec<u8>, Vec<u8>), OpaqueFailure>)
    requires
        argon2_costs_valid(m_cost, t_cost, p_cost),
        algorithm != Algorithm::Argon2i,
    ensures
        (r matches Ok(out) ==> out.1@.len() == raw_export_key_len(group_of(suite)) && out.2@.len()
            == public_key_len(ake_of(suite))),
        (r matches Ok(out) ==> out.2@ == response_server_key_of(suite_code(suite), response@)),
        (r matches Err(e) ==> e == OpaqueFailure::Other),
{
    match suite {
        CipherSuite::Ristretto255Sha2Argon2 => client_registration_finish_ristretto255(state, password, response, algorithm, m_cost, t_cost, p_cost),
        CipherSuite::X25519Ristretto255Sha2Argon2 => client_registration_finish_x25519_ristretto255(state, password, response, algorithm, m_cost, t_cost, p_cost),
        CipherSuite::P256Ristretto255Sha2Argon2 => client_registration_finish_p256_ristretto255(state, password, response, algorithm, m_cost, t_cost, p_cost),
        CipherSuite::Ristretto255P256Sha2Argon2 => client_registration_finish_ristretto255_p256(state, password, response, algorithm, m_cost, t_cost, p_cost),
        CipherSuite::X25519P256Sha2Argon2 => client_registration_finish_x25519_p256(state, password, response, algorithm, m_cost, t_cost, p_cost),
        CipherSuite::P256Sha2Argon2 => client_registration_finish_p256(state, password, response, algorithm, m_cost, t_cost, p_cost),
    }
}

/// Starts a login on the client: the state and the request.
pub(crate) fn client_login_start(suite: CipherSuite, password: &[u8]) -> (r: Result<(Vec<u8>, Vec<u8>), OpaqueFailure>)
    ensures
        r matches Ok((state, request)) ==> login_request_outcome(suite_code(suite), password@, state@, request@),
{
    match suite {
        CipherSuite::Ristretto255Sha2Argon2 => client_login_start_ristretto255(password),
        CipherSuite::X25519Ristretto255Sha2Argon2 => client_login_start_x25519_ristretto255(password),
        CipherSuite::P256Ristretto255Sha2Argon2 => client_login_start_p256_ristretto255(password),
        CipherSuite::Ristretto255P256Sha2Argon2 => client_login_start_ristretto255_p256(password),
        CipherSuite::X25519P256Sha2Argon2 => client_login_start_x25519_p256(password),
        CipherSuite::P256Sha2Argon2 => client_login_start_p256(password),
    }
}

/// Answers a login request on the server, with the user's record or a
/// simulated one: the state and the response.
pub(crate) fn server_login_start(suite: CipherSuite, setup: &[u8], file: Option<&[u8]>, request: &[u8]) -> (r: Result<(Vec<u8>, Vec<u8>), OpaqueFailure>)
    ensures
        r matches Ok((state, response)) ==> login_start_outcome(
            suite_code(suite),
            setup@,
            match file {
                Some(f) => Some(f@),
                None => None,
            },
            request@,
            state@,
            response@,
        ),
{
    match suite {
        CipherSuite::Ristretto255Sha2Argon2 => server_login_start_ristretto255(setup, file, request),
        CipherSuite::X25519Ristretto255Sha2Argon2 => server_login_start_x25519_ristretto255(setup, file, request),
        CipherSuite::P256Ristretto255Sha2Argon2 => server_login_start_p256_ristretto255(setup, file, request),
        CipherSuite::Ristretto255P256Sha2Argon2 => server_login_start_ristretto255_p256(setup, file, request),
        CipherSuite::X25519P256Sha2Argon2 => server_login_start_x25519_p256(setup, file, request),
        CipherSuite::P256Sha2Argon2 => server_login_start_p256(setup, file, request),
    }
}

/// Finishes a login on the client: the finalization, the raw export key and
/// the server's public key, or how it failed.
pub(crate) fn client_login_finish(
    suite: CipherSuite,
    state: &[u8],
    password: &[u8],
    response: &[u8],
    algorithm: Algorithm,
    m_cost: u32,
    t_cost: u32,
    p_cost: u32,
) -> (r: Result<(Vec<u8>, Vec<u8>, Vec<u8>), OpaqueFailure>)
    requires
        argon2_costs_valid(m_cost, t_cost, p_cost),
        algorithm != Algorithm::Argon2i,
    ensures
        outcome_model(r) == failure_of(
            login_outcome_of(
                suite_code(suite),
                state@,
                password@,
                response@,
                algorithm == Algorithm::Argon2d,
                m_cost,
                t_cost,
                p_cost,
            ),
        ),
        (r matches Ok(out) ==> out.1@.len() == raw_export_key_len(group_of(suite)) && out.2@.len()
            == public_key_len(ake_of(suite))),
{
    match suite {
        CipherSuite::Ristretto255Sha2Argon2 => client_login_finish_ristretto255(state, password, response, algorithm, m_cost, t_cost, p_cost),
        CipherSuite::X25519Ristretto255Sha2Argon2 => client_login_finish_x25519_ristretto255(state, password, response, algorithm, m_cost, t_cost, p_cost),
        CipherSuite::P256Ristretto255Sha2Argon2 => client_login_finish_p256_ristretto255(state, password, response, algorithm, m_cost, t_cost, p_cost),
        CipherSuite::Ristretto255P256Sha2Argon2 => client_login_finish_ristretto255_p256(state, password, response, algorithm, m_cost, t_cost, p_cost),
        CipherSuite::X25519P256Sha2Argon2 => client_login_finish_x25519_p256(state, password, response, algorithm, m_cost, t_cost, p_cost),
        CipherSuite::P256Sha2Argon2 => client_login_finish_p256(state, password, response, algorithm, m_cost, t_cost, p_cost),
    }
}

/// Checks the client's finalization on the server.
pub(crate) fn server_login_finish(suite: CipherSuite, state: &[u8], finalization: &[u8]) -> (r: Result<(), OpaqueFailure>)
    ensures
        r is Ok == login_accepted_of(suite_code(suite), state@, finalization@),
        r matches Err(e) ==> e == OpaqueFailure::Other,
{
    match suite {
        CipherSuite::Ristretto255Sha2Argon2 => server_login_finish_ristretto255(state, finalization),
        CipherSuite::X25519Ristretto255Sha2Argon2 => server_login_finish_x25519_ristretto255(state, finalization),
        CipherSuite::P256Ristretto255Sha2Argon2 => server_login_finish_p256_ristretto255(state, finalization),
        CipherSuite::Ristretto255P256Sha2Argon2 => server_login_finish_ristretto255_p256(state, finalization),
        CipherSuite::X25519P256Sha2Argon2 => server_login_finish_x25519_p256(state, finalization),
        CipherSuite::P256Sha2Argon2 => server_login_finish_p256(state, finalization),
    }
}

} // verus!
