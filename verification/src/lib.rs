//! Chart computation-and-caching pipeline for ranked snap ratings.
//!
//! A chart request names a timeframe and, optionally, a category. The library
//! validates the request, serves the chart from a per-key cache with a fixed
//! time-to-live and single-flight computation, pairs every chart entry with a
//! resolved display name, and maps failures to one of three request errors.
//! The store fetch and the name lookups are remote calls; the surrounding
//! binary performs them and feeds their results back into the functions here.

pub mod cache;
pub mod domain;
pub mod handler;
pub mod wire;
