//! The two operations on an escrow record.

pub mod check_and_execute;
pub mod confirm_delivery;
