//! Premium pricing, claim lifecycle and counter rules of the NiffyInsure
//! parametric-insurance contract, specified and proved with Verus.

pub mod policy;
pub mod premium;
pub mod storage;
pub mod types;
