//! A capped escrow-and-reward ledger.
//!
//! Depositors pool a fungible asset into a capped collection and may later
//! claim, from any number of independently funded distributions, a share of
//! the distributed asset proportional to their fraction of the collection's
//! cap. This crate holds the accounting engine: the persistent record types,
//! the state-transition operations over them, and proofs of the ledger's
//! safety properties (cap enforcement, conservation of deposits, and that a
//! distribution never pays out more than it was funded with). Moving the
//! assets themselves is the hosting environment's job; the operations here
//! decide the amounts and account for them.
//!
//! - [`state`] holds the four persistent record types and their invariants;
//! - [`error`] the reasons an operation refuses;
//! - [`ops`] the state-transition operations, each with an exact contract;
//! - [`share`] the entitlement formula and its arithmetic;
//! - [`laws`] the ledger-wide guarantees, proved over a ghost view of all
//!   depositors at once.

pub mod error;
pub mod laws;
pub mod ops;
pub mod share;
pub mod state;

pub use error::ErrorCode;
pub use state::Address;
pub use state::Collection;
pub use state::CollectionUserState;
pub use state::Distribution;
pub use state::DistributionUserState;
