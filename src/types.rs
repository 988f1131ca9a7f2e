use vstd::prelude::*;

use crate::pubkey::Pubkey;

verus! {

/// The per-deployment configuration and counter record.
#[derive(Clone, Copy, Debug)]
pub struct StateAccount {
    /// The identity allowed to bind the vault and to withdraw.
    pub owner: Pubkey,
    /// The fungible asset being distributed.
    pub token_mint: Pubkey,
    /// The vault account, once `create_vault` has bound one.
    pub token_vault: Option<Pubkey>,
    /// The public key of the offline attester of claims.
    pub signer: Pubkey,
    /// Everything paid out through `claim` so far.
    pub total_claimed: u64,
    /// The bump seed that makes the state's derived address valid.
    pub bump: u8,
}

/// Whether one claimant has redeemed their claim.
#[derive(Clone, Copy, Debug, PartialEq, Eq, Structural)]
pub struct ClaimRecord {
    pub is_claimed: bool,
}

/// The (claimant, amount) pair that the offline signer attests to.
#[derive(Clone, Copy, Debug)]
pub struct ClaimMessage {
    pub wallet: Pubkey,
    pub amount: u64,
}

/// Reported for each successful claim.
#[derive(Clone, Copy, Debug)]
pub struct ClaimEvent {
    pub user: Pubkey,
    pub amount: u64,
}

/// A token ledger account: its address, the asset it holds, the identity
/// that may move funds out of it, and its balance.
#[derive(Clone, Copy, Debug)]
pub struct TokenAccount {
    pub key: Pubkey,
    pub mint: Pubkey,
    pub owner: Pubkey,
    pub amount: u64,
}

/// Why an operation was refused. Every refusal leaves all state unchanged.
#[derive(Clone, Copy, Debug, PartialEq, Eq, Structural)]
pub enum AirdropError {
    /// The caller is not the owner.
    Unauthorized,
    /// The offline signature does not attest the claim.
    InvalidSignature,
    /// The claimant has already redeemed.
    AlreadyClaimed,
    /// The state record, or the vault binding, exists already.
    AlreadyExists,
    /// `total_claimed` would exceed `u64::MAX`.
    ArithmeticOverflow,
    /// No state record has been created.
    NotInitialized,
    /// No vault has been bound.
    VaultNotBound,
    /// An account holds another asset than the configured one.
    MintMismatch,
    /// The receiving account of a claim does not belong to the claimant.
    OwnerMismatch,
    /// The ledger refused: the source balance is below the amount.
    InsufficientFunds,
    /// The ledger refused: the destination balance would overflow.
    BalanceOverflow,
    /// No bump seed gives a valid derived address.
    NoViableBump,
}

} // verus!
