//! Passwordless registration with public-key credentials.
//!
//! A client enrols in two steps. It first asks for a challenge for its
//! identity ([`issue`]), and then presents the credential that its
//! authenticator made for that challenge ([`verify`]). Both steps need the
//! persistent store, which lives outside this library: each is a state machine
//! that says what to ask of the store and goes on from the answer ([`store`]
//! holds the store's model, [`ceremony`] what holds of both steps together).
//!
//! [`credentials`] holds what the client sends and decodes the attestation
//! object in it, [`options`] what it is sent, and [`config`] the relying
//! party's own identity. [`cbor`], [`encoding`], [`digest`] and [`random`] are
//! the doors to the crates that decode CBOR and base64, hash and draw random
//! bytes: what is believed of those crates is stated there, and nowhere else.

pub mod cbor;
pub mod ceremony;
pub mod config;
pub mod credentials;
pub mod digest;
pub mod encoding;
pub mod issue;
pub mod options;
pub mod random;
pub mod store;
pub mod text;
pub mod verify;
