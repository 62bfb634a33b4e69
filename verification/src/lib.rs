//! Account creation with e-mail confirmation and session authentication.
//!
//! A registration writes a pending confirmation under a fresh token. The
//! token is consumed exactly once, either by the user confirming it, which
//! promotes the pending row into a user, or by its expiry, which discards it.
pub mod auth;
pub mod config;
pub mod database;
pub mod hasher;
pub mod mail;
pub mod models;
pub mod table;
pub mod templates;
pub mod token;
