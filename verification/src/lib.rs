//! Identity-provider framework for third-party sign-in, and the SQL value
//! codec that carries records between the database and JSON.
//!
//! The executable functions of this crate are verified against their
//! contracts. The few calls into other crates stand behind wrappers whose
//! contracts are taken on trust; each of them says what it trusts.

pub mod admin;
pub mod auth;
pub mod config;
pub mod search;
pub mod text;
