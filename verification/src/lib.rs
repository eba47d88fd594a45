//! A verified core for a PIX payment-processing backend.
//!
//! The library models the service dispatch framework of the backend — a
//! bounded, ordered mailbox of typed requests, a single-use reply slot, and
//! the Pix request handler that creates deposits against an external gateway
//! and reconciles asynchronous gateway status callbacks — together with the
//! data carried through it. Network and database work is performed by an
//! unverified driver around the library; the library states and proves what
//! is decided for every outcome of that work.

pub mod gateway;
pub mod mailbox;
pub mod models;
pub mod pix;
pub mod reply;
pub mod runtime;
