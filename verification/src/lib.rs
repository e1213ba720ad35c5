//! The authentication and authorization core of a credential-issuing
//! service: salted password hashing and verification, signed and expiring
//! session tokens, a shared directory of accounts with unique emails and
//! collision-free identifiers, and role-gated operations over it.
//!
//! The transport around it (HTTP routing, JSON envelopes, the process
//! bootstrap) lives outside; it hands this crate plain values and takes
//! plain values back.

pub mod directory;
pub mod errors;
pub mod flow;
pub mod gate;
pub mod hasher;
pub mod laws;
pub mod models;
pub mod token;
