//! Two-round multi-party Schnorr ("MuSig"-style) aggregate signatures.
//!
//! Several signers, each holding an independent key pair, jointly produce a
//! single compact signature that verifies against an aggregated public key.
//! The protocol defends against rogue-key attacks through per-signer
//! aggregation coefficients and against rogue-nonce (Wagner-style) attacks
//! through a commit-then-reveal nonce exchange.
//!
//! The elliptic-curve group, scalar field, hash function and commitment
//! scheme are supplied by the `curv` crate; the [`algebra`] module is the
//! trusted bridge to it, [`multi_sig`] holds the verified protocol logic,
//! and [`session`] enforces the per-session commit-then-reveal ordering.

pub mod algebra;
pub mod multi_sig;
pub mod session;
