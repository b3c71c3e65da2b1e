//! A minimal escrow state machine.
//!
//! A maker locks a deposit of one asset in a custody account. The deposit is
//! released to a beneficiary once the maker has confirmed delivery, or refunded
//! to the maker once the deadline has passed without a confirmation. Moving the
//! funds and retiring the custody account are the work of an asset transfer
//! service outside this library: the library decides, in order, what the
//! service is asked to do, and commits the record only when all of it is done.

pub mod authority;
pub mod errors;
pub mod instructions;
pub mod laws;
pub mod state;
