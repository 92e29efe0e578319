//! The verified core of a newsletter service with double opt-in.

pub mod domain;
pub mod email_client;
pub mod onboarding;
pub mod routes;
pub mod secret;
pub mod service;
pub mod store;
