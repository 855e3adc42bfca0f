use password::config::{
    ARGON2_MAX_M_COST, ARGON2_MAX_T_COST, ARGON2_MAX_P_COST, ARGON2_MIN_M_COST, ARGON2_MIN_P_COST,
    ARGON2_MIN_T_COST,
};
use password::{
    Ake, Argon2Algorithm, Argon2Params, ClientConfig, ClientLogin, ClientRegistration, Config,
    Error, Group, Mhf, ServerConfig, ServerLogin, ServerRegistration,
};

const PASSWORD: &[u8] = b"password";

#[test]
fn argon2_ranges() {
    assert_eq!(ARGON2_MIN_M_COST, argon2::Params::MIN_M_COST);
    assert_eq!(0x0fff_ffff, ARGON2_MAX_M_COST);
    assert!(ARGON2_MAX_M_COST <= argon2::Params::MAX_M_COST);
    assert_eq!(ARGON2_MIN_T_COST, argon2::Params::MIN_T_COST);
    assert_eq!(ARGON2_MAX_T_COST, argon2::Params::MAX_T_COST);
    assert_eq!(ARGON2_MIN_P_COST, argon2::Params::MIN_P_COST);
    assert_eq!(ARGON2_MAX_P_COST, argon2::Params::MAX_P_COST);
}

#[test]
fn basic() {
    let server_config = ServerConfig::default();
    let client_config =
        ClientConfig::new(Config::default(), Some(server_config.public_key())).unwrap();

    let (client, request) = ClientRegistration::register(&client_config, PASSWORD).unwrap();
    let (server, response) = ServerRegistration::register(&server_config, request).unwrap();
    let (client_file, finalization, _) = client.finish(response).unwrap();
    let server_file = server.finish(finalization).unwrap();

    let (client, request) = ClientLogin::login(&client_config, Some(client_file), PASSWORD).unwrap();
    let (server, response) = ServerLogin::login(&server_config, Some(server_file), request).unwrap();
    let (_, finalization, _) = client.finish(response).unwrap();
    server.finish(finalization).unwrap();
}

#[test]
fn consistency() {
    let server_config = ServerConfig::default();
    let client_config = ClientConfig::default();

    let (client, request) = ClientRegistration::register(&client_config, PASSWORD).unwrap();
    let (server, response) = ServerRegistration::register(&server_config, request).unwrap();
    let (client_file, finalization, export_key) = client.finish(response).unwrap();
    let server_file = server.finish(finalization).unwrap();

    let (client, request) = ClientLogin::login(&client_config, None, PASSWORD).unwrap();
    let (server, response) = ServerLogin::login(&server_config, Some(server_file), request).unwrap();
    let (new_client_file, finalization, new_export_key) = client.finish(response).unwrap();
    server.finish(finalization).unwrap();

    assert_eq!(client_file, new_client_file);
    assert_eq!(export_key, new_export_key);
}

#[test]
fn not_validated() {
    let server_config = ServerConfig::default();
    let client_config = ClientConfig::default();

    assert_eq!(client_config.public_key(), None);

    let (client, request) = ClientRegistration::register(&client_config, PASSWORD).unwrap();

    assert_eq!(client.public_key(), None);

    let (server, response) = ServerRegistration::register(&server_config, request).unwrap();
    let (_, finalization, _) = client.finish(response).unwrap();
    let server_file = server.finish(finalization).unwrap();

    let (client, request) = ClientLogin::login(&client_config, None, PASSWORD).unwrap();

    assert_eq!(client.public_key(), None);

    let (server, response) = ServerLogin::login(&server_config, Some(server_file), request).unwrap();
    let (_, finalization, _) = client.finish(response).unwrap();
    server.finish(finalization).unwrap();
}

#[test]
fn wrong_password() {
    let client_config = ClientConfig::default();
    let server_config = ServerConfig::default();

    let (client, request) =
        ClientRegistration::register(&client_config, b"right password").unwrap();
    let (server, response) = ServerRegistration::register(&server_config, request).unwrap();
    let (_, finalization, _) = client.finish(response).unwrap();
    let server_file = server.finish(finalization).unwrap();

    let (client, request) = ClientLogin::login(&client_config, None, b"wrong password").unwrap();
    let (_, response) = ServerLogin::login(&server_config, Some(server_file), request).unwrap();
    assert_eq!(client.finish(response), Err(Error::Credentials));
}

#[test]
fn no_client() {
    let client_config = ClientConfig::default();
    let server_config = ServerConfig::default();

    let (client, request) = ClientLogin::login(&client_config, None, b"password").unwrap();
    let (_, response) = ServerLogin::login(&server_config, None, request).unwrap();
    assert_eq!(client.finish(response), Err(Error::Credentials));
}

#[test]
fn wrong_server_register() {
    let server_config = ServerConfig::default();
    let server_config_wrong = ServerConfig::default();
    let client_config =
        ClientConfig::new(Config::default(), Some(server_config_wrong.public_key())).unwrap();

    let (client, request) = ClientRegistration::register(&client_config, b"password").unwrap();
    let (_, response) = ServerRegistration::register(&server_config, request).unwrap();
    assert_eq!(client.finish(response), Err(Error::InvalidServer));
}

#[test]
fn wrong_server_login() {
    let server_config = ServerConfig::default();
    let server_config_wrong = ServerConfig::default();

    let client_config = ClientConfig::new(Config::default(), None).unwrap();
    let (client, request) = ClientRegistration::register(&client_config, PASSWORD).unwrap();
    let (server, response) = ServerRegistration::register(&server_config, request).unwrap();
    let (_, finalization, _) = client.finish(response).unwrap();
    let server_file = server.finish(finalization).unwrap();

    let client_config =
        ClientConfig::new(Config::default(), Some(server_config_wrong.public_key())).unwrap();
    let (client, request) = ClientLogin::login(&client_config, None, PASSWORD).unwrap();
    let (_, response) = ServerLogin::login(&server_config, Some(server_file), request).unwrap();
    assert_eq!(client.finish(response), Err(Error::InvalidServer));
}

#[test]
fn wrong_server_config() {
    let client_config = ClientConfig::default();
    let server_config = ServerConfig::default();
    let server_config_wrong = ServerConfig::default();

    let (client, request) = ClientRegistration::register(&client_config, PASSWORD).unwrap();
    let (server, response) = ServerRegistration::register(&server_config, request).unwrap();
    let (_, finalization, _) = client.finish(response).unwrap();
    let server_file = server.finish(finalization).unwrap();

    let (_, request) = ClientLogin::login(&client_config, None, PASSWORD).unwrap();
    assert_eq!(
        ServerLogin::login(&server_config_wrong, Some(server_file), request),
        Err(Error::ServerFile)
    );
}

#[test]
fn wrong_client_config() {
    let server_config = ServerConfig::default();
    let client_config =
        ClientConfig::new(Config::default(), Some(server_config.public_key())).unwrap();
    let server_config_wrong = ServerConfig::default();
    let client_config_wrong =
        ClientConfig::new(Config::default(), Some(server_config_wrong.public_key())).unwrap();

    let (client, request) = ClientRegistration::register(&client_config, PASSWORD).unwrap();
    let (server, response) = ServerRegistration::register(&server_config, request).unwrap();
    let (client_file, finalization, _) = client.finish(response).unwrap();
    let _server_file = server.finish(finalization).unwrap();

    let (client, request) = ClientRegistration::register(&client_config_wrong, PASSWORD).unwrap();
    let (server, response) = ServerRegistration::register(&server_config_wrong, request).unwrap();
    let (client_file_wrong, finalization, _) = client.finish(response).unwrap();
    let _server_file_wrong = server.finish(finalization).unwrap();

    assert_eq!(
        ClientLogin::login(&client_config, Some(client_file_wrong), PASSWORD),
        Err(Error::ConfigPublicKey)
    );
    assert_eq!(
        ClientLogin::login(&client_config_wrong, Some(client_file), PASSWORD),
        Err(Error::ConfigPublicKey)
    );
}

fn cipher_suite(ake: Ake, group: Group, hash: password::config::Hash, mhf: Mhf) {
    let config = Config::new(ake, group, hash, mhf);

    assert_eq!(config.ake(), ake);
    assert_eq!(config.group(), group);
    assert_eq!(config.crypto_hash(), hash);
    assert_eq!(config.mhf(), mhf);

    let server_config = ServerConfig::new(config);
    let client_config = ClientConfig::new(config, Some(server_config.public_key())).unwrap();

    let (client, request) = ClientRegistration::register(&client_config, PASSWORD).unwrap();
    let (server, response) = ServerRegistration::register(&server_config, request).unwrap();
    let (client_file, finalization, export_key) = client.finish(response).unwrap();
    let server_file = server.finish(finalization).unwrap();

    let (client, request) =
        ClientLogin::login(&client_config, Some(client_file.clone()), PASSWORD).unwrap();
    let (server, response) =
        ServerLogin::login(&server_config, Some(server_file.clone()), request).unwrap();
    let (new_client_file, finalization, new_export_key) = client.finish(response).unwrap();
    server.finish(finalization).unwrap();

    assert_eq!(client_file, new_client_file);
    assert_eq!(
        client_config.public_key().unwrap().to_bytes(),
        client_config.public_key().unwrap().to_bytes()
    );
    assert_eq!(
        client_file.public_key().to_bytes(),
        new_client_file.public_key().to_bytes()
    );
    assert_eq!(
        server_config.public_key().to_bytes(),
        server_config.public_key().to_bytes()
    );
    assert_eq!(
        server_file.public_key().to_bytes(),
        server_file.public_key().to_bytes()
    );
    assert_eq!(export_key, new_export_key);
    assert_eq!(export_key.as_bytes(), new_export_key.as_bytes());
    assert_eq!(export_key.as_ref(), new_export_key.as_ref());
    assert_eq!(&*export_key, &*new_export_key);
}

fn argon2(algorithm: Argon2Algorithm) -> Mhf {
    Mhf::Argon2(Argon2Params::new(Some(algorithm), None, None, None).unwrap())
}

fn all_akes(group: Group, mhf: Mhf) {
    for ake in [Ake::Ristretto255, Ake::X25519, Ake::P256] {
        cipher_suite(ake, group, password::config::Hash::Sha2, mhf);
    }
}

// The suites are split over four tests so that each stays short.
#[test]
fn cipher_suites() {
    all_akes(Group::Ristretto255, argon2(Argon2Algorithm::Argon2id));
}

#[test]
fn cipher_suites_argon2d() {
    all_akes(Group::Ristretto255, argon2(Argon2Algorithm::Argon2d));
}

#[test]
fn cipher_suites_p256_oprf() {
    all_akes(Group::P256, argon2(Argon2Algorithm::Argon2id));
}

#[test]
fn cipher_suites_p256_oprf_argon2d() {
    all_akes(Group::P256, argon2(Argon2Algorithm::Argon2d));
}

#[test]
fn wrong_config() {
    let config = Config::new(
        Ake::default(),
        Group::default(),
        password::config::Hash::default(),
        Mhf::Argon2(Argon2Params::new(Some(Argon2Algorithm::Argon2id), None, None, None).unwrap()),
    );
    let wrong_config = Config::new(
        Ake::default(),
        Group::default(),
        password::config::Hash::default(),
        Mhf::Argon2(Argon2Params::new(Some(Argon2Algorithm::Argon2d), None, None, None).unwrap()),
    );
    let server_config = ServerConfig::new(config);
    let wrong_server_config = ServerConfig::new(wrong_config);
    let client_config = ClientConfig::new(config, Some(server_config.public_key())).unwrap();
    let wrong_client_config =
        ClientConfig::new(wrong_config, Some(wrong_server_config.public_key())).unwrap();

    assert_eq!(
        ClientConfig::new(config, Some(wrong_server_config.public_key())),
        Err(Error::Config)
    );

    // Registration
    let (client, request) = ClientRegistration::register(&client_config, PASSWORD).unwrap();
    let (server, response) =
        ServerRegistration::register(&server_config, request.clone()).unwrap();
    let (client_file, finalization, _) = client.clone().finish(response.clone()).unwrap();
    let server_file = server.clone().finish(finalization.clone()).unwrap();

    let (wrong_client, wrong_request) =
        ClientRegistration::register(&wrong_client_config, PASSWORD).unwrap();
    let (wrong_server, wrong_response) =
        ServerRegistration::register(&wrong_server_config, wrong_request.clone()).unwrap();
    let (wrong_client_file, wrong_finalization, _) =
        wrong_client.clone().finish(wrong_response.clone()).unwrap();
    let wrong_server_file = wrong_server.clone().finish(wrong_finalization.clone()).unwrap();

    assert_eq!(
        ServerRegistration::register(&wrong_server_config, request),
        Err(Error::Config)
    );
    assert_eq!(
        ServerRegistration::register(&server_config, wrong_request),
        Err(Error::Config)
    );

    assert_eq!(wrong_client.finish(response), Err(Error::Config));
    assert_eq!(client.finish(wrong_response), Err(Error::Config));

    assert_eq!(wrong_server.finish(finalization), Err(Error::Config));
    assert_eq!(server.finish(wrong_finalization), Err(Error::Config));

    // Login
    let (client, request) =
        ClientLogin::login(&client_config, Some(client_file.clone()), PASSWORD).unwrap();
    let (server, response) =
        ServerLogin::login(&server_config, Some(server_file.clone()), request.clone()).unwrap();
    let (_, finalization, _) = client.clone().finish(response.clone()).unwrap();
    server.clone().finish(finalization.clone()).unwrap();

    let (wrong_client, wrong_request) =
        ClientLogin::login(&wrong_client_config, Some(wrong_client_file.clone()), PASSWORD)
            .unwrap();
    let (wrong_server, wrong_response) = ServerLogin::login(
        &wrong_server_config,
        Some(wrong_server_file.clone()),
        wrong_request.clone(),
    )
    .unwrap();
    let (_, wrong_finalization, _) = wrong_client.clone().finish(wrong_response.clone()).unwrap();
    wrong_server.clone().finish(wrong_finalization.clone()).unwrap();

    assert_eq!(
        ClientLogin::login(&wrong_client_config, Some(client_file), PASSWORD),
        Err(Error::Config)
    );
    assert_eq!(
        ClientLogin::login(&client_config, Some(wrong_client_file), PASSWORD),
        Err(Error::Config)
    );

    assert_eq!(
        ServerLogin::login(&wrong_server_config, Some(server_file.clone()), request.clone()),
        Err(Error::Config)
    );
    assert_eq!(
        ServerLogin::login(&server_config, Some(wrong_server_file), request),
        Err(Error::ServerFile)
    );
    assert_eq!(
        ServerLogin::login(&server_config, Some(server_file), wrong_request),
        Err(Error::Config)
    );

    assert_eq!(wrong_client.finish(response), Err(Error::Config));
    assert_eq!(client.finish(wrong_response), Err(Error::Config));

    assert_eq!(wrong_server.finish(finalization), Err(Error::Config));
    assert_eq!(server.finish(wrong_finalization), Err(Error::Config));
}

#[test]
fn getters() {
    let config = Config::default();
    let server_config = ServerConfig::new(config);
    let client_config = ClientConfig::new(config, Some(server_config.public_key())).unwrap();
    let public_key = server_config.public_key();

    assert_eq!(server_config.config(), config);
    assert_eq!(client_config.config(), config);
    assert_eq!(client_config.public_key(), Some(server_config.public_key()));
    assert_eq!(public_key.config(), config);

    let (client, request) = ClientRegistration::register(&client_config, PASSWORD).unwrap();

    assert_eq!(client.config(), config);
    assert_eq!(client.public_key(), Some(public_key.clone()));
    assert_eq!(request.config(), config);

    let (server, response) = ServerRegistration::register(&server_config, request).unwrap();

    assert_eq!(server.config(), config);
    assert_eq!(server.public_key(), public_key);
    assert_eq!(response.config(), config);

    let (client_file, finalization, export_key) = client.finish(response).unwrap();

    assert_eq!(client_file.config(), config);
    assert_eq!(client_file.public_key(), public_key);
    assert_eq!(export_key.as_ref(), export_key.as_bytes());
    assert_eq!(&*export_key, export_key.as_bytes());
    assert_eq!(finalization.config(), config);

    let server_file = server.finish(finalization).unwrap();

    assert_eq!(server_file.config(), config);
    assert_eq!(server_file.public_key(), public_key);

    let (client, request) = ClientLogin::login(&client_config, Some(client_file), PASSWORD).unwrap();

    assert_eq!(client.config(), config);
    assert_eq!(client.public_key(), Some(public_key.clone()));
    assert_eq!(request.config(), config);

    let (server, response) = ServerLogin::login(&server_config, Some(server_file), request).unwrap();

    assert_eq!(server.config(), config);
    assert_eq!(response.config(), config);

    let (new_client_file, finalization, export_key) = client.finish(response).unwrap();

    assert_eq!(new_client_file.config(), config);
    assert_eq!(new_client_file.public_key(), public_key);
    assert_eq!(export_key.as_ref(), export_key.as_bytes());
    assert_eq!(&*export_key, export_key.as_bytes());
    assert_eq!(finalization.config(), config);

    server.finish(finalization).unwrap();
}
