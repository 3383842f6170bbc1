//! Request-scoped authentication for web services: a cookie token is parsed
//! into a request context, protected routes require it, and service
//! errors are mapped to sanitized client responses.

pub mod auth;
pub mod config;
pub mod ctx;
pub mod error;
pub mod res_map;
pub mod token;
pub mod utils;
