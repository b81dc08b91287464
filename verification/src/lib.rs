//! Cookie-carried sessions with two signed tokens: a short-lived access token, a
//! long-lived refresh token that is rotated with it, and revocation through a per-user
//! session version held by the credential store.

pub mod auth;
pub mod claims;
pub mod clock;
pub mod config;
pub mod cookie;
pub mod db;
pub mod endpoints;
pub mod laws;
pub mod search;
pub mod text;
