//! Core of a short-link redirect service: link storage with a uniqueness
//! policy for short codes, best-effort visit accounting, redirect
//! resolution, and per-route request metrics.

pub mod clock;
pub mod codegen;
pub mod errors;
pub mod link_visit;
pub mod links;
pub mod metrics;
pub mod service;
pub mod text;
