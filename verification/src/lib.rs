//! An asynchronous connection pool core: bounded checkout of connections,
//! waiter notification, background reclamation decisions, and a coordinated,
//! leak-free shutdown protocol.
//!
//! The pool's shared state and every protocol decision live here as plain
//! data and step functions, so that each poll of an acquire or disconnect
//! future is a verified transition. The surrounding runtime (locks, channels,
//! task wakers, the network transport) drives these steps and performs the
//! actions they return.

pub mod acquire;
pub mod disconnect;
pub mod error;
pub mod exchange;
pub mod laws;
pub mod pool;
pub mod queue;
