//! Relying-party core of an OpenID Connect authorization-code login:
//! configuration checks, the login redirect, the callback state machine,
//! the session cookie and the guard that reads it.
pub mod assets;
pub mod callback;
pub mod config;
pub mod login;
pub mod session;
pub mod state;
pub mod text;
pub mod urls;
pub mod view;
