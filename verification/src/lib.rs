//! Decisions of a throttled batch fetcher with an on-disk cache.
//!
//! The fetcher retrieves one document per identifier from a remote endpoint.
//! This crate holds everything the fetcher decides: how an identifier is
//! normalized, whether a cached artifact is present and fresh, how long to
//! wait between requests, and when to retry or give up. Touching the disk, the
//! network and the clock is left to the caller, who hands plain values in and
//! acts on the plain values that come back.

pub mod batch;
pub mod cache;
pub mod fetcher;
pub mod identifier;
pub mod limiter;
