//! Configuration for the built-in logging middleware. The middleware
//! itself prints and measures time, so it lives with the transport
//! adapter; only its configuration is part of the core.

use vstd::prelude::*;

verus! {

/// What the logging middleware reports about each request.
#[derive(Clone, Copy)]
pub struct LoggerConfig {
    /// Whether to log the method.
    pub method: bool,
    /// Whether to log the path.
    pub path: bool,
    /// Whether to log the duration.
    pub duration: bool,
}

impl Default for LoggerConfig {
    /// By default everything is logged.
    fn default() -> (r: Self)
        ensures
            r.method,
            r.path,
            r.duration,
    {
        LoggerConfig { duration: true, method: true, path: true }
    }
}

} // verus!
