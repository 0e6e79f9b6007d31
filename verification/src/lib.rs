//! Hardware-abstraction traits for digests, ECDSA and OTP memory, with
//! verified simulated implementations.

pub mod common;
pub mod digest;
pub mod ecdsa;
pub mod otp;
pub mod simulation;
