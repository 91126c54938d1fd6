//! Credential and token lifecycle core: password hashing discipline and a
//! two-secret, two-lifetime JWT issuance / verification / rotation protocol.
//!
//! The crate is organised leaves first: [`errors`] holds the closed failure
//! taxonomy, [`claims`] the claim sets a token carries, [`codec`] the signed
//! encoding of one claim set under one secret, [`hasher`] the password
//! hashing discipline, [`manager`] the two-secret policy owner, and
//! [`facade`] the thin entry surface composing the manager and the hasher.

pub mod claims;
pub mod codec;
pub mod errors;
pub mod facade;
pub mod hasher;
pub mod manager;

pub use claims::AccessTokenClaims;
pub use claims::RefreshTokenClaims;
pub use claims::TokenClass;
pub use errors::AuthError;
pub use facade::AuthContext;
pub use facade::AuthFacade;
pub use facade::TokenResponse;
pub use manager::JwtManager;
