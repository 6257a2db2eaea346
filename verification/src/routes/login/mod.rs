//! The login page.

pub mod get;
