//! Subscriber-name validation and the signed error messages of the login
//! form of the newsletter service.

pub mod domain;
pub mod routes;
pub mod startup;
