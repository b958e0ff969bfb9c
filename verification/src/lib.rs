//! Authentication and profile services of a small HTTP backend: password
//! hashing, signed identity tokens, the find-or-register login flow and the
//! uniform result envelope, each with a machine-checked contract.

pub mod cache;
pub mod clock;
pub mod config;
pub mod http;
pub mod jwt_codec;
pub mod model;
pub mod repo;
pub mod service;
