//! Block verification and shared access to a remote node.
//!
//! Two protocols are written down here as deterministic machines. A driver that
//! owns the asynchronous collaborators performs each action that is asked for and
//! reports what happened; every decision in between is taken, and proved, in this
//! crate.
//!
//! * [`block`] validates one candidate block: it asks for a chain context, has the
//!   block's transactions resolved and verified, totals weight and fees, has the
//!   block rules and the proof of work checked, and assembles the verified record.
//!   [`run`] states what holds of whole verifications.
//! * [`rpc`] lets many handles share one connection to a remote node: a handle
//!   must hold the connection's permit to place a call, and the first transport
//!   failure is remembered for every handle. [`sharing`] states what holds of all
//!   handles together, and [`lock`] holds the calls into the lock that hands out
//!   the permit.

pub mod block;
pub mod context;
pub mod error;
pub mod lock;
pub mod pow;
pub mod rpc;
pub mod run;
pub mod sharing;
pub mod transactions;
pub mod types;
