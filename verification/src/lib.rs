//! Credential handling for a small login service: a credential codec
//! (username validation, `user+hash` serialization), salted password
//! hashing and verification, the server-side login decision with signed
//! session tokens, and the client-side request building and response
//! classification.

pub mod api;
pub mod client;
pub mod credentials;
pub mod login;
pub mod text;
pub mod token;
