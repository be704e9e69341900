//! Two-factor admin authentication: a password check followed by an RFC 6238
//! time-based one-time password, producing a bearer session token of bounded
//! lifetime, plus the plain data models of the site dashboard.

pub mod admin;
pub mod credentials;
pub mod crypto;
pub mod flow;
pub mod login;
pub mod services;
pub mod settings;
pub mod store;
pub mod text;
pub mod totp;
pub mod weather;
