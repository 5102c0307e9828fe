//! The decision logic of the EasyTier core for iOS: what a call does and answers,
//! and what a running-info snapshot looks like to its readers.

pub mod config;
pub mod dense;
pub mod dropped;
pub mod events;
pub mod fault;
pub mod fields;
pub mod json;
pub mod logger;
pub mod running_info;
pub mod session;
pub mod x25519;
