//! Verified core of the domain-check relay.

pub mod text;
pub mod domain;
pub mod models;
pub mod adguard;
pub mod http;
pub mod clock;
pub mod cache;
pub mod config;
pub mod service;
