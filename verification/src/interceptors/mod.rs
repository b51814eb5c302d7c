//! Built-in interceptors: logging, protocol validation, rate limiting and
//! rule-based transformation.
pub mod logging;
pub mod validation;
pub mod rate_limit;
pub mod transform;
pub mod manager;
