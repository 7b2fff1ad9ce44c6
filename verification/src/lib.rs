//! A fund-disbursement engine with single-admin access control.
//!
//! One incoming payment is split into transfers to named recipients, the
//! leftover goes back to the sender, and a single admin may withdraw funds
//! held in custody or hand the admin role to another account.

pub mod bank;
pub mod contract;
pub mod error;
pub mod laws;
pub mod math;
pub mod msg;
pub mod state;
