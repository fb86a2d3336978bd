//! Pricing engine for a two-token automated market maker.
//!
//! The crate computes swap outputs, proportional and single-sided
//! deposit/withdrawal amounts, and multi-tier trading fees, entirely in
//! checked unsigned integer arithmetic.  Every operation either returns
//! a result or reports an explicit typed failure; nothing panics and
//! nothing is silently truncated.
//!
//! The pieces, leaves first: [`math`] holds exact 256-bit helpers for the
//! intermediate products; [`fees`] the fee fractions and their forward and
//! inverse application; [`curves`] the three pricing strategies and the
//! fee-composition layer around them; [`instructions`] the decision cores
//! of the ledger instructions; [`swap_constraints`] the deployer policy
//! checked at pool creation.

pub mod curves;
pub mod errors;
pub mod fees;
pub mod helper;
pub mod instructions;
pub mod math;
pub mod swap_constraints;
