//! Credential-and-data access layer for a small desktop backend.
//!
//! The library covers connection configuration, password hashing and
//! verification for account registration and login, and CRUD over two record
//! kinds (users, messages), modelled against an in-memory store that is the
//! specification of the relational store the application talks to.

pub mod commands;
pub mod config;
pub mod credential;
pub mod errors;
pub mod laws;
pub mod store;
