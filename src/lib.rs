//! A one-time, signature-gated token distribution engine.
//!
//! An owner funds a custodial vault whose only transfer authority is the
//! engine's derived state address; each claimant may redeem an amount attested
//! by an offline signer exactly once; the owner may withdraw what is left.

pub mod address;
pub mod engine;
pub mod laws;
pub mod message;
pub mod pubkey;
pub mod types;


pub use engine::Airdrop;
pub use pubkey::Pubkey;
pub use types::{AirdropError, ClaimEvent, ClaimMessage, ClaimRecord, StateAccount, TokenAccount};
