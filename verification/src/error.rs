//! Errors surfaced to callers of the pool.

use vstd::prelude::*;

verus! {

/// Why a pool operation failed.
#[derive(Clone, Copy, Debug, PartialEq, Eq, Structural)]
pub enum Error {
    /// The operation was attempted after shutdown was requested.
    PoolClosed,
    /// Opening or resetting a connection failed in the transport layer.
    ConnectionFactory,
}

} // verus!
