use password::config::{ARGON2_DEFAULT_M_COST, ARGON2_DEFAULT_P_COST, ARGON2_DEFAULT_T_COST};
use password::{
    Ake, Argon2Algorithm, Argon2Params, ClientConfig, ClientFile, ClientLogin, ClientRegistration,
    Config, Error, ExportKey, Group, LoginRequest, Mhf, OpaqueFailure, Pbkdf2Hash, Pbkdf2Params,
    PublicKey, RegistrationRequest, ServerConfig, ServerFile, ServerLogin, ServerRegistration,
};

const PASSWORD: &[u8] = b"password";

fn config_with(ake: Ake, group: Group) -> Config {
    Config::new(ake, group, password::config::Hash::Sha2, Mhf::default())
}

fn register(
    server_config: &ServerConfig,
    client_config: &ClientConfig,
) -> (ClientFile, ServerFile, ExportKey) {
    let (client, request) = ClientRegistration::register(client_config, PASSWORD).unwrap();
    let (server, response) = ServerRegistration::register(server_config, request).unwrap();
    let (client_file, finalization, export_key) = client.finish(response).unwrap();
    let server_file = server.finish(finalization).unwrap();
    (client_file, server_file, export_key)
}

#[test]
fn config_selectors_are_kept() {
    for ake in [Ake::Ristretto255, Ake::X25519, Ake::P256] {
        for group in [Group::Ristretto255, Group::P256] {
            let config = config_with(ake, group);
            assert_eq!(config.ake(), ake);
            assert_eq!(config.group(), group);
            assert_eq!(config.crypto_hash(), password::config::Hash::Sha2);
            assert_eq!(config.mhf(), Mhf::default());
        }
    }
    assert_ne!(config_with(Ake::X25519, Group::P256), config_with(Ake::P256, Group::P256));
    let argon2d = Argon2Params::new(Some(Argon2Algorithm::Argon2d), None, None, None).unwrap();
    assert_ne!(
        Config::default(),
        Config::new(Ake::Ristretto255, Group::Ristretto255, password::config::Hash::Sha2, Mhf::Argon2(argon2d))
    );
}

#[test]
fn config_defaults() {
    let config = Config::default();
    assert_eq!(config.ake(), Ake::Ristretto255);
    assert_eq!(config.group(), Group::Ristretto255);
    let Mhf::Argon2(params) = config.mhf();
    assert_eq!(params.algorithm(), Argon2Algorithm::Argon2id);
    assert_eq!(params.m_cost(), 19456);
    assert_eq!(params.t_cost(), 2);
    assert_eq!(params.p_cost(), 1);
    assert_eq!(ARGON2_DEFAULT_M_COST, 19456);
    assert_eq!(ARGON2_DEFAULT_T_COST, 2);
    assert_eq!(ARGON2_DEFAULT_P_COST, 1);
}

#[test]
fn argon2_params_ranges() {
    let a = Some(Argon2Algorithm::Argon2id);
    assert_eq!(Argon2Params::new(a, Some(7), None, None), Err(Error::MhfConfig));
    assert_eq!(Argon2Params::new(a, Some(0x1000_0000), None, None), Err(Error::MhfConfig));
    assert_eq!(Argon2Params::new(a, None, Some(0), None), Err(Error::MhfConfig));
    assert_eq!(Argon2Params::new(a, None, None, Some(0)), Err(Error::MhfConfig));
    assert_eq!(Argon2Params::new(a, None, None, Some(0x0100_0000)), Err(Error::MhfConfig));

    let low = Argon2Params::new(a, Some(8), Some(1), Some(1)).unwrap();
    assert_eq!((low.m_cost(), low.t_cost(), low.p_cost()), (8, 1, 1));
    let high = Argon2Params::new(a, Some(0x0fff_ffff), Some(u32::MAX), Some(0x00ff_ffff)).unwrap();
    assert_eq!((high.m_cost(), high.t_cost(), high.p_cost()), (0x0fff_ffff, u32::MAX, 0x00ff_ffff));
}

#[test]
fn pbkdf2_params() {
    let default = Pbkdf2Params::new(None, None).unwrap();
    assert_eq!(default.hash(), Pbkdf2Hash::Sha256);
    assert_eq!(default.rounds(), 10000);
    assert_eq!(default, Pbkdf2Params::default());
    let sha512 = Pbkdf2Params::new(Some(Pbkdf2Hash::Sha512), Some(1)).unwrap();
    assert_eq!(sha512.hash(), Pbkdf2Hash::Sha512);
    assert_eq!(sha512.rounds(), 1);
    assert_eq!(Pbkdf2Params::new(None, Some(0)), Err(Error::MhfConfig));
}

#[test]
fn unusable_argon2_memory_is_refused_at_finish() {
    // Eight blocks of memory for two lanes: in range, but Argon2 needs 16.
    let params = Argon2Params::new(None, Some(8), Some(1), Some(2)).unwrap();
    let config = Config::new(Ake::Ristretto255, Group::Ristretto255, password::config::Hash::Sha2, Mhf::Argon2(params));
    let server_config = ServerConfig::new(config);
    let client_config = ClientConfig::new(config, None).unwrap();
    let (client, request) = ClientRegistration::register(&client_config, PASSWORD).unwrap();
    let (_, response) = ServerRegistration::register(&server_config, request).unwrap();
    assert_eq!(client.finish(response).unwrap_err(), Error::MhfConfig);
}

#[test]
fn public_key_lengths_follow_the_group() {
    assert_eq!(ServerConfig::new(config_with(Ake::Ristretto255, Group::Ristretto255)).public_key().to_bytes().len(), 32);
    assert_eq!(ServerConfig::new(config_with(Ake::X25519, Group::P256)).public_key().to_bytes().len(), 32);
    assert_eq!(ServerConfig::new(config_with(Ake::P256, Group::Ristretto255)).public_key().to_bytes().len(), 33);
}

#[test]
fn export_key_is_widened_to_64_bytes() {
    // A P-256 OPRF yields a 32-byte export key, followed by zeros.
    let config = config_with(Ake::Ristretto255, Group::P256);
    let server_config = ServerConfig::new(config);
    let client_config = ClientConfig::new(config, None).unwrap();
    let (_, _, export_key) = register(&server_config, &client_config);
    let bytes = export_key.as_bytes();
    assert_eq!(bytes.len(), 64);
    assert!(bytes[32..].iter().all(|b| *b == 0));
    assert!(bytes[..32].iter().any(|b| *b != 0));
}

#[test]
fn conclude_builds_exact_values() {
    let config = Config::default();
    let server_key = vec![7u8; 32];
    let outcome = Ok((vec![1u8, 2, 3], vec![9u8; 32], server_key.clone()));
    let (file, finalization, export_key) =
        ClientRegistration::conclude(config, None, outcome).unwrap();
    assert_eq!(file.public_key().to_bytes(), server_key);
    assert_eq!(file.config(), config);
    assert_eq!(finalization.config(), config);
    let mut expected = vec![9u8; 32];
    expected.extend_from_slice(&[0u8; 32]);
    assert_eq!(export_key.as_bytes(), &expected[..]);
}

#[test]
fn conclude_reports_each_error() {
    let config = Config::default();
    let server_config = ServerConfig::new(config);
    let expected = server_config.public_key();
    let other = vec![1u8; 32];

    let wrong_key = Ok((vec![], vec![0u8; 64], other.clone()));
    assert_eq!(
        ClientRegistration::conclude(config, Some(expected.clone()), wrong_key).unwrap_err(),
        Error::InvalidServer
    );
    let right_key = Ok((vec![], vec![0u8; 64], expected.to_bytes()));
    assert!(ClientRegistration::conclude(config, Some(expected.clone()), right_key).is_ok());

    let short_key = Ok((vec![], vec![0u8; 64], vec![1u8; 31]));
    assert_eq!(ClientRegistration::conclude(config, None, short_key).unwrap_err(), Error::Opaque);
    let long_export = Ok((vec![], vec![0u8; 65], other.clone()));
    assert_eq!(ClientRegistration::conclude(config, None, long_export).unwrap_err(), Error::Opaque);

    assert_eq!(
        ClientLogin::conclude(config, None, Err(OpaqueFailure::InvalidLogin)).unwrap_err(),
        Error::Credentials
    );
    assert_eq!(
        ClientLogin::conclude(config, None, Err(OpaqueFailure::Other)).unwrap_err(),
        Error::Opaque
    );

    let p256 = config_with(Ake::P256, Group::P256);
    let foreign = ServerConfig::new(p256).public_key();
    let fine = Ok((vec![], vec![0u8; 64], other));
    assert_eq!(ClientLogin::conclude(config, Some(foreign), fine).unwrap_err(), Error::Config);
}

#[test]
fn public_key_is_stable() {
    let server_config = ServerConfig::default();
    let client_config = ClientConfig::default();
    let (client_file, server_file, _) = register(&server_config, &client_config);
    assert_eq!(client_file.public_key(), server_config.public_key());
    assert_eq!(server_file.public_key(), server_config.public_key());

    let (client, request) = ClientLogin::login(&client_config, None, PASSWORD).unwrap();
    let (server, response) = ServerLogin::login(&server_config, Some(server_file), request).unwrap();
    assert_eq!(server.public_key(), server_config.public_key());
    let (login_file, _, _) = client.finish(response).unwrap();
    assert_eq!(login_file.public_key(), server_config.public_key());
}

#[test]
fn disagreeing_client_inputs() {
    let server_a = ServerConfig::default();
    let server_b = ServerConfig::default();
    let (file_b, _, _) = register(&server_b, &ClientConfig::default());
    let client_config = ClientConfig::new(Config::default(), Some(server_a.public_key())).unwrap();
    assert_eq!(
        ClientLogin::login(&client_config, Some(file_b.clone()), PASSWORD).unwrap_err(),
        Error::ConfigPublicKey
    );
    // With no expected key of its own the client takes the file's.
    let (login, _) = ClientLogin::login(&ClientConfig::default(), Some(file_b.clone()), PASSWORD).unwrap();
    assert_eq!(login.public_key(), Some(file_b.public_key()));
}

#[test]
fn config_encoding_is_exact() {
    let bytes = Config::default().encode();
    assert_eq!(bytes, vec![0, 0, 0, 0x00, 0x4c, 0, 0, 2, 0, 0, 0, 1, 0, 0, 0]);
    assert_eq!(Config::decode(&bytes), Some(Config::default()));

    let mut bad_suite = bytes.clone();
    bad_suite[0] = 6;
    assert_eq!(Config::decode(&bad_suite), None);
    let mut low_memory = bytes.clone();
    low_memory[4] = 0;
    assert_eq!(Config::decode(&low_memory), None);
    let mut trailing = bytes.clone();
    trailing.push(0);
    assert_eq!(Config::decode(&trailing), None);
    assert_eq!(Config::decode(&[]), None);
}

#[test]
fn public_key_encoding_round_trips() {
    for ake in [Ake::Ristretto255, Ake::P256] {
        let key = ServerConfig::new(config_with(ake, Group::Ristretto255)).public_key();
        let bytes = key.encode();
        assert_eq!(bytes.len(), 48);
        assert_eq!(PublicKey::decode(&bytes), Some(key.clone()));
        let file = ClientFile::decode(&bytes).unwrap();
        assert_eq!(file.public_key(), key);
        assert_eq!(file.encode(), bytes);
    }
    let key = ServerConfig::default().public_key();
    let mut padded = key.encode();
    padded[47] = 1;
    assert_eq!(PublicKey::decode(&padded), None);
}

#[test]
fn states_and_files_round_trip() {
    let server_config = ServerConfig::default();
    let stored = ServerConfig::decode(&server_config.encode()).unwrap();
    assert_eq!(stored, server_config);

    let client_config = ClientConfig::new(Config::default(), Some(server_config.public_key())).unwrap();
    let (client, request) = ClientRegistration::register(&client_config, PASSWORD).unwrap();
    let client = ClientRegistration::decode(&client.encode()).unwrap();
    let request = RegistrationRequest::decode(&request.encode()).unwrap();
    let (server, response) = ServerRegistration::register(&stored, request).unwrap();
    let server = ServerRegistration::decode(&server.encode()).unwrap();
    let response = password::RegistrationResponse::decode(&response.encode()).unwrap();
    let (client_file, finalization, export_key) = client.finish(response).unwrap();
    let finalization = password::RegistrationFinalization::decode(&finalization.encode()).unwrap();
    let server_file = server.finish(finalization).unwrap();
    let server_file = ServerFile::decode(&server_file.encode()).unwrap();

    let (client, request) = ClientLogin::login(&client_config, Some(client_file.clone()), PASSWORD).unwrap();
    let client = ClientLogin::decode(&client.encode()).unwrap();
    let request = LoginRequest::decode(&request.encode()).unwrap();
    let (server, response) = ServerLogin::login(&server_config, Some(server_file), request).unwrap();
    let server = ServerLogin::decode(&server.encode()).unwrap();
    let response = password::LoginResponse::decode(&response.encode()).unwrap();
    let (new_client_file, finalization, new_export_key) = client.finish(response).unwrap();
    let finalization = password::LoginFinalization::decode(&finalization.encode()).unwrap();
    server.finish(finalization).unwrap();

    assert_eq!(client_file, new_client_file);
    assert_eq!(export_key, new_export_key);
}

#[test]
fn message_decoding_checks_its_input() {
    let client_config = ClientConfig::default();
    let (_, request) = ClientLogin::login(&client_config, None, PASSWORD).unwrap();
    let bytes = request.encode();
    assert_eq!(LoginRequest::decode(&bytes), Some(request.clone()));
    assert_eq!(LoginRequest::decode(&bytes[..bytes.len() - 1]), None);
    let mut longer = bytes.clone();
    longer.push(0);
    assert_eq!(LoginRequest::decode(&longer), None);
}

#[test]
fn server_finish_rejects_a_bad_finalization() {
    let server_config = ServerConfig::default();
    let client_config = ClientConfig::default();
    let (_, server_file, _) = register(&server_config, &client_config);

    let (_, request) = ClientLogin::login(&client_config, None, PASSWORD).unwrap();
    let (server, _) = ServerLogin::login(&server_config, Some(server_file.clone()), request).unwrap();

    // A finalization from another session does not authenticate this one.
    let (client, request) = ClientLogin::login(&client_config, None, PASSWORD).unwrap();
    let (_, response) = ServerLogin::login(&server_config, Some(server_file), request).unwrap();
    let (_, finalization, _) = client.finish(response).unwrap();
    assert_eq!(server.finish(finalization), Err(Error::Opaque));
}

#[test]
fn display_names() {
    assert_eq!(password::config::Hash::Sha2.name(), "SHA-2");
    assert_eq!(Mhf::default().name(), "Argon2id");
    let argon2d = Argon2Params::new(Some(Argon2Algorithm::Argon2d), None, None, None).unwrap();
    assert_eq!(Mhf::Argon2(argon2d).name(), "Argon2d");
}

#[test]
fn tampered_upload_is_refused() {
    let server_config = ServerConfig::default();
    let (client, request) = ClientRegistration::register(&ClientConfig::default(), PASSWORD).unwrap();
    let (server, response) = ServerRegistration::register(&server_config, request).unwrap();
    let (_, finalization, _) = client.finish(response).unwrap();
    let mut bytes = finalization.encode();
    // Shorten the payload by one byte and fix up its length prefix.
    bytes.pop();
    let len = bytes.len() as u64 - 15 - 8;
    bytes[15..23].copy_from_slice(&len.to_le_bytes());
    let short = password::RegistrationFinalization::decode(&bytes).unwrap();
    assert_eq!(server.finish(short), Err(Error::Opaque));
}

#[test]
fn server_config_decode_checks_the_key_against_the_setup() {
    let first = ServerConfig::default();
    let second = ServerConfig::default();
    let mut bytes = first.encode();
    let other_key = second.public_key().encode();
    bytes[15..63].copy_from_slice(&other_key);
    assert_eq!(ServerConfig::decode(&bytes), None);
    assert_eq!(ServerConfig::decode(&first.encode()), Some(first));
}
