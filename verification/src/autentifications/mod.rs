pub mod auth;
pub mod autentifications;
