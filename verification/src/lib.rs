//! A safety facade for extension code running inside an event-driven HTTP
//! host: a status-code wrapper, a request-scoped arena allocator, borrowed
//! byte-string views, configuration-table lookups, and a request wrapper
//! whose header, status and body operations are specified and verified over
//! a plain-value model of the host's records.

pub mod conf;
pub mod headers;
pub mod pool;
pub mod request;
pub mod status;
