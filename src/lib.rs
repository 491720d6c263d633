//! A dynamic-DNS client for the Porkbun API: it works out the public address
//! of the host, compares it with the DNS record of a configured name, and
//! replaces the record when the address has changed.
//!
//! The library holds the decisions; the caller performs the HTTP requests and
//! hands the replies back.
pub mod config;
pub mod laws;
pub mod provider;
pub mod reply;
pub mod session;
