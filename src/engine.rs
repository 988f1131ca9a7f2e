use vstd::prelude::*;

use crate::address::{find_program_address, program_address};
use crate::message::{claim_message_bytes, ed25519_request_data, verify_request_bytes};
use crate::pubkey::Pubkey;
use crate::types::{AirdropError, ClaimEvent, ClaimMessage, ClaimRecord, StateAccount, TokenAccount};

verus! {

/// The seed of the state record's derived address: `b"state"`.
pub open spec fn state_seed() -> Seq<u8> {
    seq![115u8, 116u8, 97u8, 116u8, 101u8]
}

/// The seed of the vault's derived address: `b"vault"`.
pub open spec fn vault_seed() -> Seq<u8> {
    seq![118u8, 97u8, 117u8, 108u8, 116u8]
}

/// What a deployment holds, as the contracts see it.
pub struct AirdropView {
    pub program_id: Pubkey,
    pub state_key: Pubkey,
    pub state: Option<StateAccount>,
    pub vault: Option<TokenAccount>,
    pub claimed: Seq<Pubkey>,
}

impl AirdropView {
    /// The state record exists and a vault is bound to it.
    pub open spec fn is_ready(self) -> bool {
        self.state is Some && self.vault is Some
    }

    /// The deployment's invariant: no vault or claim before the state record;
    /// the record lives at the derived address of `b"state"` with its bump;
    /// a bound vault is the one the record names, holds the configured asset
    /// and answers to the record alone.
    pub open spec fn wf(self) -> bool {
        &&& (self.state is None ==> self.vault is None && self.claimed.len() == 0)
        &&& (self.state matches Some(st) ==> {
            &&& (st.token_vault is Some <==> self.vault is Some)
            &&& program_address(state_seed(), self.program_id@) == Some((self.state_key@, st.bump))
        })
        &&& (self.vault matches Some(v) ==> {
            &&& self.state matches Some(st)
            &&& st.token_vault == Some(v.key)
            &&& v.mint == st.token_mint
            &&& v.owner == self.state_key
        })
    }

    /// Whether `claimer` has redeemed.
    pub open spec fn has_claimed(self, claimer: Pubkey) -> bool {
        self.claimed.contains(claimer)
    }

    /// The reason `initialize` refuses, if any.
    pub open spec fn initialize_failure(self) -> Option<AirdropError> {
        if self.state is Some {
            Some(AirdropError::AlreadyExists)
        } else if program_address(state_seed(), self.program_id@) is None {
            Some(AirdropError::NoViableBump)
        } else {
            None
        }
    }

    /// The reason `create_vault` refuses, if any.
    pub open spec fn create_vault_failure(self, caller: Pubkey, token_mint: Pubkey) -> Option<AirdropError> {
        match self.state {
            None => Some(AirdropError::NotInitialized),
            Some(st) => if caller != st.owner {
                Some(AirdropError::Unauthorized)
            } else if token_mint != st.token_mint {
                Some(AirdropError::MintMismatch)
            } else if st.token_vault is Some {
                Some(AirdropError::AlreadyExists)
            } else if program_address(vault_seed(), self.program_id@) is None {
                Some(AirdropError::NoViableBump)
            } else {
                None
            },
        }
    }

    /// The reason a transfer of `amount` out of the vault into `recipient`
    /// is refused by the ledger, if any.
    pub open spec fn payout_failure(self, recipient: TokenAccount, amount: u64) -> Option<AirdropError> {
        if amount > self.vault->Some_0.amount {
            Some(AirdropError::InsufficientFunds)
        } else if recipient.amount + amount > u64::MAX {
            Some(AirdropError::BalanceOverflow)
        } else {
            None
        }
    }

    /// The reason `withdraw` refuses, if any.
    pub open spec fn withdraw_failure(self, caller: Pubkey, recipient: TokenAccount, amount: u64) -> Option<AirdropError> {
        match self.state {
            None => Some(AirdropError::NotInitialized),
            Some(st) => if caller != st.owner {
                Some(AirdropError::Unauthorized)
            } else if self.vault is None {
                Some(AirdropError::VaultNotBound)
            } else if recipient.mint != st.token_mint {
                Some(AirdropError::MintMismatch)
            } else {
                self.payout_failure(recipient, amount)
            },
        }
    }

    /// The reason `claim` refuses, if any. `signature_ok` is the verifier's
    /// verdict on the claim's signature request.
    pub open spec fn claim_failure(
        self,
        claimer: Pubkey,
        recipient: TokenAccount,
        amount: u64,
        signature_ok: bool,
    ) -> Option<AirdropError> {
        match self.state {
            None => Some(AirdropError::NotInitialized),
            Some(st) => if self.vault is None {
                Some(AirdropError::VaultNotBound)
            } else if recipient.mint != st.token_mint {
                Some(AirdropError::MintMismatch)
            } else if recipient.owner != claimer {
                Some(AirdropError::OwnerMismatch)
            } else if !signature_ok {
                Some(AirdropError::InvalidSignature)
            } else if self.has_claimed(claimer) {
                Some(AirdropError::AlreadyClaimed)
            } else if self.payout_failure(recipient, amount) is Some {
                self.payout_failure(recipient, amount)
            } else if st.total_claimed + amount > u64::MAX {
                Some(AirdropError::ArithmeticOverflow)
            } else {
                None
            },
        }
    }

    /// The deployment after `amount` has left the vault.
    pub open spec fn vault_paid(self, amount: u64) -> AirdropView {
        let v = self.vault->Some_0;
        AirdropView { vault: Some(TokenAccount { amount: (v.amount - amount) as u64, ..v }), ..self }
    }

    /// The deployment after a successful claim of `amount` by `claimer`.
    pub open spec fn after_claim(self, claimer: Pubkey, amount: u64) -> AirdropView {
        let st = self.state->Some_0;
        AirdropView {
            state: Some(StateAccount { total_claimed: (st.total_claimed + amount) as u64, ..st }),
            claimed: self.claimed.push(claimer),
            ..self.vault_paid(amount)
        }
    }
}

/// `recipient` credited with `amount`.
pub open spec fn credited(recipient: TokenAccount, amount: u64) -> TokenAccount {
    TokenAccount { amount: (recipient.amount + amount) as u64, ..recipient }
}

/// The outcome of `claim`: on a refusal nothing changes; otherwise the
/// claimant is marked, the vault pays `amount` to `recipient`, the counter
/// grows by `amount` and the event names the claimant and the amount.
pub open spec fn claim_outcome(
    pre: AirdropView,
    post: AirdropView,
    pre_recipient: TokenAccount,
    post_recipient: TokenAccount,
    claimer: Pubkey,
    amount: u64,
    signature_ok: bool,
    r: Result<ClaimEvent, AirdropError>,
) -> bool {
    match pre.claim_failure(claimer, pre_recipient, amount, signature_ok) {
        Some(e) => r == Err::<ClaimEvent, AirdropError>(e) && post == pre && post_recipient == pre_recipient,
        None => {
            &&& r == Ok::<ClaimEvent, AirdropError>(ClaimEvent { user: claimer, amount })
            &&& post == pre.after_claim(claimer, amount)
            &&& post_recipient == credited(pre_recipient, amount)
        },
    }
}

/// The outcome of `withdraw`: on a refusal nothing changes; otherwise the
/// vault pays `amount` to `recipient`.
pub open spec fn withdraw_outcome(
    pre: AirdropView,
    post: AirdropView,
    pre_recipient: TokenAccount,
    post_recipient: TokenAccount,
    caller: Pubkey,
    amount: u64,
    r: Result<(), AirdropError>,
) -> bool {
    match pre.withdraw_failure(caller, pre_recipient, amount) {
        Some(e) => r == Err::<(), AirdropError>(e) && post == pre && post_recipient == pre_recipient,
        None => {
            &&& r is Ok
            &&& post == pre.vault_paid(amount)
            &&& post_recipient == credited(pre_recipient, amount)
        },
    }
}

/// One deployment of the distribution engine: the state record, the vault
/// and the claim ledger.
pub struct Airdrop {
    /// The program whose derived addresses the state and the vault are.
    pub program_id: Pubkey,
    /// The derived address of the state record, the vault's authority.
    pub state_key: Pubkey,
    pub state: Option<StateAccount>,
    pub vault: Option<TokenAccount>,
    /// The claimants that have redeemed, in the order they did.
    pub claimed: Vec<Pubkey>,
}

impl View for Airdrop {
    type V = AirdropView;

    open spec fn view(&self) -> AirdropView {
        AirdropView {
            program_id: self.program_id,
            state_key: self.state_key,
            state: self.state,
            vault: self.vault,
            claimed: self.claimed@,
        }
    }
}

impl Airdrop {
    pub open spec fn wf(&self) -> bool {
        self@.wf()
    }

    /// A deployment of `program_id` with no state record yet; `state_key` is
    /// set by `initialize`.
    pub fn new(program_id: Pubkey) -> (r: Airdrop)
        ensures
            r.wf(),
            r@.program_id == program_id,
            r@.state is None,
            r@.vault is None,
            r@.claimed.len() == 0,
    {
        Airdrop { program_id, state_key: program_id, state: None, vault: None, claimed: Vec::new() }
    }
}


impl Airdrop {
    /// Creates the state record: `owner` may later bind the vault and
    /// withdraw, `token_mint` is the distributed asset and `signer` the key of
    /// the offline attester. The record lives at the derived address of the
    /// seed `b"state"`, with its bump.
    pub fn initialize(&mut self, owner: Pubkey, token_mint: Pubkey, signer: Pubkey) -> (r: Result<(), AirdropError>)
        requires
            old(self).wf(),
        ensures
            final(self).wf(),
            match old(self)@.initialize_failure() {
                Some(e) => r == Err::<(), AirdropError>(e) && final(self)@ == old(self)@,
                None => {
                    &&& r is Ok
                    &&& program_address(state_seed(), old(self)@.program_id@) == Some(
                        (final(self)@.state_key@, final(self)@.state->Some_0.bump),
                    )
                    &&& final(self)@ == AirdropView {
                        state_key: final(self)@.state_key,
                        state: Some(
                            StateAccount {
                                owner,
                                token_mint,
                                token_vault: None,
                                signer,
                                total_claimed: 0,
                                bump: final(self)@.state->Some_0.bump,
                            },
                        ),
                        ..old(self)@
                    }
                },
            },
    {
        if self.state.is_some() {
            return Err(AirdropError::AlreadyExists);
        }
        let seed: [u8; 5] = [115, 116, 97, 116, 101];
        proof {
            assert(seed@ =~= state_seed());
        }
        match find_program_address(seed.as_slice(), &self.program_id) {
            None => Err(AirdropError::NoViableBump),
            Some((key, bump)) => {
                self.state_key = key;
                self.state = Some(
                    StateAccount { owner, token_mint, token_vault: None, signer, total_claimed: 0, bump },
                );
                Ok(())
            },
        }
    }

    /// Binds the vault: a fresh account of `token_mint`, at the derived
    /// address of the seed `b"vault"`, whose authority is the state record.
    pub fn create_vault(&mut self, caller: &Pubkey, token_mint: &Pubkey) -> (r: Result<(), AirdropError>)
        requires
            old(self).wf(),
        ensures
            final(self).wf(),
            match old(self)@.create_vault_failure(*caller, *token_mint) {
                Some(e) => r == Err::<(), AirdropError>(e) && final(self)@ == old(self)@,
                None => {
                    let st = old(self)@.state->Some_0;
                    let v = final(self)@.vault->Some_0;
                    &&& r is Ok
                    &&& final(self)@.vault is Some
                    &&& program_address(vault_seed(), old(self)@.program_id@) matches Some((k, _)) && v.key@ == k
                    &&& v == (TokenAccount { key: v.key, mint: *token_mint, owner: old(self)@.state_key, amount: 0 })
                    &&& final(self)@ == AirdropView {
                        state: Some(StateAccount { token_vault: Some(v.key), ..st }),
                        vault: Some(v),
                        ..old(self)@
                    }
                },
            },
    {
        let st = match self.state {
            None => {
                return Err(AirdropError::NotInitialized);
            },
            Some(st) => st,
        };
        if !caller.same_as(&st.owner) {
            return Err(AirdropError::Unauthorized);
        }
        if !token_mint.same_as(&st.token_mint) {
            return Err(AirdropError::MintMismatch);
        }
        if st.token_vault.is_some() {
            return Err(AirdropError::AlreadyExists);
        }
        let seed: [u8; 5] = [118, 97, 117, 108, 116];
        proof {
            assert(seed@ =~= vault_seed());
        }
        match find_program_address(seed.as_slice(), &self.program_id) {
            None => Err(AirdropError::NoViableBump),
            Some((key, _bump)) => {
                self.vault = Some(TokenAccount { key, mint: *token_mint, owner: self.state_key, amount: 0 });
                self.state = Some(StateAccount { token_vault: Some(key), ..st });
                Ok(())
            },
        }
    }
}


impl Airdrop {
    /// Whether `claimer` has redeemed; a claimant never seen reads as not
    /// claimed.
    pub fn claim_record(&self, claimer: &Pubkey) -> (r: ClaimRecord)
        ensures
            r.is_claimed == self@.has_claimed(*claimer),
    {
        let mut i: usize = 0;
        while i < self.claimed.len()
            invariant
                i <= self.claimed@.len(),
                forall|j: int| 0 <= j < i ==> self.claimed@[j] != *claimer,
            decreases self.claimed@.len() - i,
        {
            if self.claimed[i].same_as(claimer) {
                return ClaimRecord { is_claimed: true };
            }
            i = i + 1;
        }
        ClaimRecord { is_claimed: false }
    }

    /// Moves `amount` from the vault into `recipient`, as the ledger does:
    /// refused when the vault holds less or the recipient's balance would
    /// overflow.
    fn pay_out(&mut self, recipient: &mut TokenAccount, amount: u64) -> (r: Result<(), AirdropError>)
        requires
            old(self).wf(),
            old(self)@.vault is Some,
        ensures
            match old(self)@.payout_failure(*old(recipient), amount) {
                Some(e) => r == Err::<(), AirdropError>(e) && final(self)@ == old(self)@ && *final(recipient)
                    == *old(recipient),
                None => r is Ok && final(self)@ == old(self)@.vault_paid(amount) && *final(recipient)
                    == credited(*old(recipient), amount),
            },
    {
        let v = match self.vault {
            Some(v) => v,
            None => {
                return Err(AirdropError::VaultNotBound);
            },
        };
        if amount > v.amount {
            return Err(AirdropError::InsufficientFunds);
        }
        if recipient.amount > u64::MAX - amount {
            return Err(AirdropError::BalanceOverflow);
        }
        self.vault = Some(TokenAccount { amount: v.amount - amount, ..v });
        recipient.amount = recipient.amount + amount;
        Ok(())
    }

    /// The owner moves `amount` from the vault into `recipient`, an account
    /// of the distributed asset.
    pub fn withdraw(&mut self, caller: &Pubkey, recipient: &mut TokenAccount, amount: u64) -> (r: Result<(), AirdropError>)
        requires
            old(self).wf(),
        ensures
            final(self).wf(),
            withdraw_outcome(old(self)@, final(self)@, *old(recipient), *final(recipient), *caller, amount, r),
    {
        let st = match self.state {
            None => {
                return Err(AirdropError::NotInitialized);
            },
            Some(st) => st,
        };
        if !caller.same_as(&st.owner) {
            return Err(AirdropError::Unauthorized);
        }
        if self.vault.is_none() {
            return Err(AirdropError::VaultNotBound);
        }
        if !recipient.mint.same_as(&st.token_mint) {
            return Err(AirdropError::MintMismatch);
        }
        self.pay_out(recipient, amount)
    }

    /// Adds `amount` from `source`, an account of the distributed asset, to
    /// the vault.
    pub fn fund(&mut self, source: &mut TokenAccount, amount: u64) -> (r: Result<(), AirdropError>)
        requires
            old(self).wf(),
        ensures
            final(self).wf(),
            old(self)@.is_ready() && old(source).mint == old(self)@.state->Some_0.token_mint && amount
                <= old(source).amount && old(self)@.vault->Some_0.amount + amount <= u64::MAX ==> {
                let v = old(self)@.vault->Some_0;
                &&& r is Ok
                &&& final(self)@ == AirdropView {
                    vault: Some(TokenAccount { amount: (v.amount + amount) as u64, ..v }),
                    ..old(self)@
                }
                &&& *final(source) == TokenAccount { amount: (old(source).amount - amount) as u64, ..*old(source) }
            },
            r is Err ==> final(self)@ == old(self)@ && *final(source) == *old(source),
            r == Err::<(), AirdropError>(AirdropError::NotInitialized) <==> old(self)@.state is None,
            r == Err::<(), AirdropError>(AirdropError::VaultNotBound) <==> old(self)@.state is Some
                && old(self)@.vault is None,
            r == Err::<(), AirdropError>(AirdropError::MintMismatch) <==> old(self)@.is_ready()
                && old(source).mint != old(self)@.state->Some_0.token_mint,
            r == Err::<(), AirdropError>(AirdropError::InsufficientFunds) <==> old(self)@.is_ready()
                && old(source).mint == old(self)@.state->Some_0.token_mint && amount > old(source).amount,
            r == Err::<(), AirdropError>(AirdropError::BalanceOverflow) <==> old(self)@.is_ready()
                && old(source).mint == old(self)@.state->Some_0.token_mint && amount <= old(source).amount
                && old(self)@.vault->Some_0.amount + amount > u64::MAX,
    {
        let st = match self.state {
            None => {
                return Err(AirdropError::NotInitialized);
            },
            Some(st) => st,
        };
        let v = match self.vault {
            None => {
                return Err(AirdropError::VaultNotBound);
            },
            Some(v) => v,
        };
        if !source.mint.same_as(&st.token_mint) {
            return Err(AirdropError::MintMismatch);
        }
        if amount > source.amount {
            return Err(AirdropError::InsufficientFunds);
        }
        if v.amount > u64::MAX - amount {
            return Err(AirdropError::BalanceOverflow);
        }
        source.amount = source.amount - amount;
        self.vault = Some(TokenAccount { amount: v.amount + amount, ..v });
        Ok(())
    }

    /// The data of the ed25519 verification request for a claim of `amount`
    /// by `claimer` with `signature`: does it sign the claim message under
    /// the configured signer key?
    pub fn signature_request(&self, claimer: &Pubkey, amount: u64, signature: &[u8; 64]) -> (r: Result<Vec<u8>, AirdropError>)
        ensures
            match self@.state {
                None => r == Err::<Vec<u8>, AirdropError>(AirdropError::NotInitialized),
                Some(st) => r matches Ok(d) && d@ == verify_request_bytes(
                    st.signer@,
                    claim_message_bytes(claimer@, amount),
                    signature@,
                ),
            },
    {
        match self.state {
            None => Err(AirdropError::NotInitialized),
            Some(st) => {
                let message = ClaimMessage { wallet: *claimer, amount };
                let bytes = message.try_to_vec();
                Ok(ed25519_request_data(&st.signer, &bytes, signature))
            },
        }
    }

    /// `claimer` redeems `amount` into `recipient`, an account of the
    /// distributed asset that `claimer` owns. `signature_ok` is the ed25519
    /// verifier's verdict on `signature_request` for the same claim. Each
    /// claimant redeems at most once; the whole operation is atomic.
    pub fn claim(
        &mut self,
        claimer: &Pubkey,
        recipient: &mut TokenAccount,
        amount: u64,
        signature_ok: bool,
    ) -> (r: Result<ClaimEvent, AirdropError>)
        requires
            old(self).wf(),
        ensures
            final(self).wf(),
            claim_outcome(
                old(self)@,
                final(self)@,
                *old(recipient),
                *final(recipient),
                *claimer,
                amount,
                signature_ok,
                r,
            ),
    {
        let st = match self.state {
            None => {
                return Err(AirdropError::NotInitialized);
            },
            Some(st) => st,
        };
        let in_vault = match self.vault {
            None => {
                return Err(AirdropError::VaultNotBound);
            },
            Some(v) => v.amount,
        };
        if !recipient.mint.same_as(&st.token_mint) {
            return Err(AirdropError::MintMismatch);
        }
        if !recipient.owner.same_as(claimer) {
            return Err(AirdropError::OwnerMismatch);
        }
        if !signature_ok {
            return Err(AirdropError::InvalidSignature);
        }
        if self.claim_record(claimer).is_claimed {
            return Err(AirdropError::AlreadyClaimed);
        }
        if amount > in_vault {
            return Err(AirdropError::InsufficientFunds);
        }
        if recipient.amount > u64::MAX - amount {
            return Err(AirdropError::BalanceOverflow);
        }
        if st.total_claimed > u64::MAX - amount {
            return Err(AirdropError::ArithmeticOverflow);
        }
        let _ = self.pay_out(recipient, amount);
        self.claimed.push(*claimer);
        self.state = Some(StateAccount { total_claimed: st.total_claimed + amount, ..st });
        Ok(ClaimEvent { user: *claimer, amount })
    }
}

} // verus!
