//! The database pool's configuration and its defaulting rules.

use vstd::prelude::*;

verus! {

/// The settings of one named database pool.
pub struct Config {
    pub url: String,
    pub pool_size: u32,
    pub timeout: u8,
}

impl Config {
    /// Assemble a pool configuration from what the configuration source
    /// provided for the pool's keys. The connection URL must be given; the
    /// pool size defaults to twice the server's worker count, and the
    /// connection timeout to five seconds.
    pub fn from(url: String, pool_size: Option<u32>, timeout: Option<u8>, workers: u32) -> (c:
        Config)
        requires
            workers <= u32::MAX / 2,
        ensures
            c.url@ == url@,
            c.pool_size == (match pool_size {
                Some(n) => n as int,
                None => 2 * workers,
            }),
            c.timeout == (match timeout {
                Some(t) => t,
                None => 5u8,
            }),
    {
        let pool_size = match pool_size {
            Some(n) => n,
            None => 2 * workers,
        };
        let timeout = match timeout {
            Some(t) => t,
            None => 5,
        };
        Config { url, pool_size, timeout }
    }
}

} // verus!
