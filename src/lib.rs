//! Transactional core of a ticketed-event platform: event lifecycle, ticket
//! issuance, transfer, check-in and refund, per-event escrow with a platform
//! fee split, and a signer-threshold release of pooled funds.
//!
//! The host supplies what the core cannot: it authenticates the principal
//! passed to each operation, reads the clock, persists the state and moves
//! the funds that an operation reports as owed.

pub mod contract;
pub mod fees;
pub mod laws;
pub mod principals;
pub mod state;
pub mod types;
pub mod validation;

pub use contract::LumentixContract;
pub use types::{Event, EventStatus, LumentixError, Payout, Principal, Ticket, TransferEvent};
