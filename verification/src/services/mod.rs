pub mod auth;
pub mod crypto;
pub mod error;
