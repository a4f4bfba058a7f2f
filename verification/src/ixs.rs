//! The operations on a contract.

pub mod burn;
pub mod exercise;
pub mod new;
pub mod redeem;
pub mod write;
