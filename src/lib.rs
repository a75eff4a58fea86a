//! An optimistic dispute-resolution oracle.
//!
//! Anyone may assert the outcome of a binary event by posting a bond. The
//! assertion then stands open for a fixed liveness window, during which a
//! counter-party may challenge it once with a bond of its own. After the
//! window, an undisputed assertion is accepted by anyone who confirms it; a
//! disputed one is settled by the oracle's authority. Once settled, each bonded
//! party may claim back its stake.
//!
//! The library holds the state machine and its bonding rules. Storage, the
//! clock, balances and fund transfers belong to the host: every operation takes
//! the time and the relevant balance as plain values.

pub mod error;
pub mod state;
pub mod instructions;
pub mod laws;

pub use error::OracleError;
pub use state::{Address, Event, Oracle, Proposal, ResolutionType};
