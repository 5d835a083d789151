//! A single-flag mutual-exclusion guard for synchronously re-entrant
//! execution environments, together with a small custodial vault that
//! demonstrates a protected and an unprotected withdrawal path.

pub mod contract;
pub mod reentrancy;
