//! Verified decision logic of the Haven registry's killswitch: reporting a
//! registered device as stolen with a recovery bounty, and reading the bounty
//! back.

pub mod device;
pub mod killswitch;
