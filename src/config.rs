//! Checking what the operator asked for before any work starts.
use vstd::prelude::*;

verus! {

/// A request that cannot be searched for.
#[derive(Debug, Clone, Copy, PartialEq, Eq, Structural)]
pub enum ConfigError {
    /// The prefix is empty, longer than 40 digits, or holds a non-hex character.
    InvalidPrefix,
    /// Fewer than one worker was asked for.
    InvalidThreadCount,
}

/// The number of workers to start: at least one.
pub fn thread_count(requested: i64) -> (r: Result<u64, ConfigError>)
    ensures
        r is Ok <==> requested >= 1,
        r matches Ok(n) ==> n == requested,
        r matches Err(e) ==> e == ConfigError::InvalidThreadCount,
{
    if requested >= 1 {
        Ok(requested as u64)
    } else {
        Err(ConfigError::InvalidThreadCount)
    }
}

} // verus!
