//! Attestation aggregation and verification for a VM-instance root of trust.
//!
//! - `types`: the values shared by attesters and challengers.
//! - `digest`: the digest chaining that binds a challenger's nonce and user
//!   data to the evidence of the platform root of trust.
//! - `cert`: whether certificates decode.
//! - `verify`: the challenger's checks and its final decision.
//! - `challenge`: the order of the challenger's steps, as a state machine.
//! - `frame`: the line framing of the command channel.
//! - `mock`: the instance root of trust mock that wraps a platform attester.
//! - `signer`: the capability that every attester offers.
pub mod types;
pub mod digest;
pub mod cert;
pub mod verify;
pub mod frame;
pub mod mock;
pub mod challenge;
pub mod signer;
