//! Verified core of the payment event emitter contract.
//!
//! The contract state (owner, event counter, stored payment events,
//! allow-listed source, pause flag, pending upgrade and pending owner) is
//! held in [`PaymentEventEmitter`]; each contract entry point is a method that
//! takes the state together with the plain values the host supplies (the
//! authenticated caller and the ledger time) and returns what the contract
//! returns. Every method is specified against the mathematical model
//! [`EmitterState`].

pub mod address;
pub mod emitter;
pub mod error;
pub mod event;
pub mod laws;

pub use address::Address;
pub use emitter::{EmitterState, PaymentEventEmitter};
pub use error::EmitterError;
pub use event::{PaymentEvent, PaymentEventView};
