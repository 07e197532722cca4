//! Process-wide graceful-shutdown coordination built around a hierarchy of
//! tiers: components register at a depth, wait on a token, and deeper tiers
//! are released strictly before the shallower tiers they depend on.

pub mod close_model;
pub mod graceful_shutdown;
pub mod hasher;
pub mod log;
pub mod mailer;
pub mod rand;
