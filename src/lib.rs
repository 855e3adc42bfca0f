//! OPAQUE password-authenticated key exchange over a run-time choice of
//! cipher suite.
//!
//! A client registers a password with a server ([`ClientRegistration`],
//! [`ServerRegistration`]) and later logs in with it ([`ClientLogin`],
//! [`ServerLogin`]); the server never learns the password. Every state,
//! message and file carries the [`Config`] it was made under, and each step
//! refuses input made under another one. The OPAQUE cryptography itself is
//! done by the `opaque-ke` crate.

pub mod config;
pub mod encoding;
pub mod public_key;

mod client;
mod codec;
mod error;
mod export_key;
mod message;
mod registry;
mod server;
mod suites;

pub use crate::client::{ClientConfig, ClientFile, ClientLogin, ClientRegistration};
pub use crate::config::{
    Ake, Argon2Algorithm, Argon2Params, Config, Group, Mhf, Pbkdf2Hash, Pbkdf2Params,
};
pub use crate::error::Error;
pub use crate::export_key::ExportKey;
pub use crate::message::{
    LoginFinalization, LoginRequest, LoginResponse, RegistrationFinalization,
    RegistrationRequest, RegistrationResponse,
};
pub use crate::public_key::PublicKey;
pub use crate::server::{ServerConfig, ServerFile, ServerLogin, ServerRegistration};
pub use crate::suites::OpaqueFailure;
