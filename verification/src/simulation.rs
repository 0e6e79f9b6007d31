//! Simulated hardware back ends for the proposed traits: a hash controller
//! and a secp384r1 ECDSA key, signature and digest model.

pub mod digest_dispatch;
pub mod ecdsa;
