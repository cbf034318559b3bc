//! Ledger core of a cross-chain asset bridge port.
//!
//! The crate holds the bridge's durable state (token and chain registries,
//! fee configuration, replay guards, the outbound sequence counter) and the
//! handlers that drive it: governance directives, inbound mint tickets,
//! outbound redeem intents, and the continuation callbacks of the host
//! ledger's asynchronous operations. Every handler is a pure transition on
//! [`state::State`]: it either fails and leaves the state untouched, or
//! commits its mutation and reports the operations to dispatch and the
//! events to emit. The surrounding process performs the actual dispatch,
//! storage and (de)serialization.

pub mod contract;
pub mod error;
pub mod laws;
pub mod msg;
pub mod reply;
pub mod route;
pub mod state;
pub mod store;
pub mod types;
