//! Account service for a game-server dashboard: signup, password and
//! OAuth-assisted login, session introspection, profile updates, a
//! game-client login path, and administrator-edited server configuration.
//!
//! The service state models the two backing stores (the document store of
//! dashboard users and the relational store of game accounts) as in-memory
//! collections with their uniqueness invariants; credential hashing, token
//! signing and randomness are reached through small trusted wrappers.

pub mod crypto;
pub mod laws;
pub mod models;
pub mod service;
pub mod text;
pub mod token;

use vstd::prelude::*;

verus! {

} // verus!
