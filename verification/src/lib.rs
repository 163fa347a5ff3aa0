//! A ledger-style escrow engine: value is sent to a human-readable identifier
//! (an email address or a username).  When the identifier is bound to an
//! account the payment is routed there at once, minus a platform fee; when it
//! is not, the net amount is held in escrow until the identifier is registered
//! and its owner claims it.
//!
//! Every executable function carries a contract over the mathematical model
//! of the ledger, and the properties that relate several operations are
//! stated and proved in [`laws`].

pub mod coin;
pub mod contract;
pub mod error;
pub mod fee;
pub mod helpers;
pub mod identifier;
pub mod keyed;
pub mod laws;
pub mod model;
pub mod msg;
pub mod response;
pub mod state;
