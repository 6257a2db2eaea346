//! Request handlers.

pub mod login;
