//! Generation of an RSA private key and its PKCS#8 encryption under a
//! password, with the scrypt cost settings as verified plain values and the
//! order of a run's steps as a verified state machine.

pub mod cost;
pub mod error;
pub mod keys;
mod outside;
pub mod pem;
pub mod run;

pub use cost::{openssl_cost, ScryptCost};
pub use error::KeyError;
pub use keys::{
    encrypt_der_with_scrypt, encrypt_with_default_params, encrypt_with_openssl_params, encrypt_with_scrypt_params,
    generate_key, KEY_BITS, PASSWORD,
};
pub use run::{first_action, next_action, Action};
