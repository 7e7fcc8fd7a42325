//! Decision logic of a dynamic-DNS updater.
//!
//! The crate holds everything the updater decides: which of the addresses a
//! public resolver returned is the host's own, which requests a DNS provider
//! is sent, and what each reply means. Sending the query and the requests is
//! left to the caller, who hands the replies back as plain values.

pub mod address;
pub mod api;
pub mod cloudflare;
pub mod provider;
pub mod text;
