//! An SSH agent that keeps no private key on disk: it answers identity and
//! signing requests by fetching each private key from a password store at
//! the moment it is needed.

pub mod codec;
pub mod cache;
pub mod agent;
pub mod config;
pub mod pass;
