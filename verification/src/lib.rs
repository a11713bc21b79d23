//! Private balance attestation: the gating program that admits a zero-knowledge
//! attestation once, the circuit statement it proves, and the off-chain
//! verifier and gatekeeper around it.
pub mod bytes;
pub mod crypto;
pub mod message;
pub mod gate;
pub mod encoding;
pub mod program;
pub mod circuit;
pub mod hexcodec;
pub mod offchain;
pub mod gatekeeper;
pub mod membership;
pub mod relay;
