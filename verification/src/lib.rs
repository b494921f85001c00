//! Request-processing core of a chat gateway: an interceptor chain with
//! explicit ordering and short-circuit semantics, a fixed-window rate limiter
//! over a bounded shared cache, a client identity resolver, and the
//! dispatcher logic that builds provider calls and normalizes their
//! responses. The transport around it (HTTP surface, network calls) stays
//! outside; this crate states and proves what each step decides.

pub mod chain;
pub mod errors;
pub mod identity;
pub mod models;
pub mod rate_limiter;
pub mod services;
