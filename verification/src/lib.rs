//! Remote-attestation primitives: adjudication of quote-verification
//! outcomes and fixed-size identity values with constant-time equality.
//!
//! The external quote verifier reports three independent signals: a
//! call-level status, a verification-status code and a collateral
//! expiration flag. [`verify`] combines them into a single verdict.
//! [`identity`] holds the fixed-size byte identities (enclave and signer
//! measurements, configuration ids) that policy layers compare.

pub mod identity;
pub mod verify;
