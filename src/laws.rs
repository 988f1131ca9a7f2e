use vstd::prelude::*;

use crate::engine::{claim_outcome, credited, withdraw_outcome, AirdropView};
use crate::pubkey::Pubkey;
use crate::types::{AirdropError, ClaimEvent, TokenAccount};

verus! {

/// The sum of `amounts`.
pub open spec fn sum(amounts: Seq<u64>) -> int
    decreases amounts.len(),
{
    if amounts.len() == 0 {
        0
    } else {
        sum(amounts.drop_last()) + amounts.last()
    }
}

/// What the counter of a deployment reads.
pub open spec fn total_claimed(s: AirdropView) -> int {
    s.state->Some_0.total_claimed as int
}

/// What the vault of a deployment holds.
pub open spec fn vault_balance(s: AirdropView) -> int {
    s.vault->Some_0.amount as int
}

/// A claim succeeds at most once per claimant: after a successful claim, the
/// same claim with a valid signature again is refused as already claimed and
/// moves nothing.
pub proof fn lemma_claim_idempotent(
    s0: AirdropView,
    s1: AirdropView,
    s2: AirdropView,
    a0: TokenAccount,
    a1: TokenAccount,
    a2: TokenAccount,
    claimer: Pubkey,
    amount: u64,
    r1: Result<ClaimEvent, AirdropError>,
    r2: Result<ClaimEvent, AirdropError>,
)
    requires
        claim_outcome(s0, s1, a0, a1, claimer, amount, true, r1),
        claim_outcome(s1, s2, a1, a2, claimer, amount, true, r2),
    ensures
        r1 is Ok ==> r2 == Err::<ClaimEvent, AirdropError>(AirdropError::AlreadyClaimed) && s2 == s1 && a2 == a1,
        s0.has_claimed(claimer) ==> r1 is Err && r2 is Err,
{
    if r1 is Ok {
        assert(s1.claimed.last() == claimer);
        assert(s1.has_claimed(claimer));
    }
}

/// Once a claimant has redeemed, neither a claim nor a withdrawal ever
/// clears the mark.
pub proof fn lemma_claimed_is_terminal(
    s0: AirdropView,
    s1: AirdropView,
    a0: TokenAccount,
    a1: TokenAccount,
    who: Pubkey,
    caller: Pubkey,
    amount: u64,
    signature_ok: bool,
    rc: Result<ClaimEvent, AirdropError>,
    rw: Result<(), AirdropError>,
)
    requires
        s0.has_claimed(who),
        claim_outcome(s0, s1, a0, a1, caller, amount, signature_ok, rc) || withdraw_outcome(
            s0,
            s1,
            a0,
            a1,
            caller,
            amount,
            rw,
        ),
    ensures
        s1.has_claimed(who),
{
    let i = choose|i: int| 0 <= i < s0.claimed.len() && s0.claimed[i] == who;
    if s1 != s0 && s1.claimed != s0.claimed {
        assert(s1.claimed[i] == who);
    }
}

/// A claim whose signature does not verify is refused as an invalid
/// signature, once the accounts it names are consistent, and changes neither
/// the claim ledger nor any balance.
pub proof fn lemma_signature_gate(
    s0: AirdropView,
    s1: AirdropView,
    a0: TokenAccount,
    a1: TokenAccount,
    claimer: Pubkey,
    amount: u64,
    r: Result<ClaimEvent, AirdropError>,
)
    requires
        claim_outcome(s0, s1, a0, a1, claimer, amount, false, r),
    ensures
        r is Err,
        s1 == s0,
        a1 == a0,
        s0.is_ready() && a0.mint == s0.state->Some_0.token_mint && a0.owner == claimer ==> r
            == Err::<ClaimEvent, AirdropError>(AirdropError::InvalidSignature),
{
}

/// A withdrawal by anyone but the owner is refused as unauthorized and moves
/// nothing.
pub proof fn lemma_withdraw_needs_owner(
    s0: AirdropView,
    s1: AirdropView,
    a0: TokenAccount,
    a1: TokenAccount,
    caller: Pubkey,
    amount: u64,
    r: Result<(), AirdropError>,
)
    requires
        s0.state is Some,
        caller != s0.state->Some_0.owner,
        withdraw_outcome(s0, s1, a0, a1, caller, amount, r),
    ensures
        r == Err::<(), AirdropError>(AirdropError::Unauthorized),
        s1 == s0,
        a1 == a0,
{
}

/// Whether step `i` of a run is a successful claim (`is_claim[i]`) or a
/// successful withdrawal, of `amounts[i]` by `callers[i]` into the account
/// `before[i]`, which becomes `after[i]`.
pub open spec fn run_step(
    states: Seq<AirdropView>,
    before: Seq<TokenAccount>,
    after: Seq<TokenAccount>,
    callers: Seq<Pubkey>,
    amounts: Seq<u64>,
    is_claim: Seq<bool>,
    i: int,
) -> bool {
    if is_claim[i] {
        claim_outcome(
            states[i],
            states[i + 1],
            before[i],
            after[i],
            callers[i],
            amounts[i],
            true,
            Ok::<ClaimEvent, AirdropError>(ClaimEvent { user: callers[i], amount: amounts[i] }),
        )
    } else {
        withdraw_outcome(states[i], states[i + 1], before[i], after[i], callers[i], amounts[i], Ok::<(), AirdropError>(()))
    }
}

/// The sum of the `amounts` whose flag in `pick` is set.
pub open spec fn sum_picked(amounts: Seq<u64>, pick: Seq<bool>) -> int
    decreases amounts.len(),
{
    if amounts.len() == 0 {
        0
    } else {
        sum_picked(amounts.drop_last(), pick.subrange(0, amounts.len() - 1)) + if pick[amounts.len() - 1] {
            amounts.last() as int
        } else {
            0
        }
    }
}

/// Over any run of successful claims and withdrawals, the counter grows by
/// exactly the sum of the amounts claimed, and the vault shrinks by exactly
/// the sum of everything paid out, claimed or withdrawn.
pub proof fn lemma_conservation(
    states: Seq<AirdropView>,
    before: Seq<TokenAccount>,
    after: Seq<TokenAccount>,
    callers: Seq<Pubkey>,
    amounts: Seq<u64>,
    is_claim: Seq<bool>,
)
    requires
        states.len() == amounts.len() + 1,
        before.len() == amounts.len(),
        after.len() == amounts.len(),
        callers.len() == amounts.len(),
        is_claim.len() == amounts.len(),
        states[0].is_ready(),
        forall|i: int| 0 <= i < amounts.len() ==> #[trigger] run_step(states, before, after, callers, amounts, is_claim, i),
    ensures
        states.last().is_ready(),
        total_claimed(states.last()) == total_claimed(states[0]) + sum_picked(amounts, is_claim),
        vault_balance(states.last()) == vault_balance(states[0]) - sum(amounts),
    decreases amounts.len(),
{
    let n = amounts.len();
    if n > 0 {
        let k = n - 1;
        let pick = is_claim.subrange(0, k as int);
        assert forall|i: int| 0 <= i < k implies #[trigger] run_step(
            states.drop_last(),
            before.drop_last(),
            after.drop_last(),
            callers.drop_last(),
            amounts.drop_last(),
            pick,
            i,
        ) by {
            assert(run_step(states, before, after, callers, amounts, is_claim, i));
        }
        lemma_conservation(
            states.drop_last(),
            before.drop_last(),
            after.drop_last(),
            callers.drop_last(),
            amounts.drop_last(),
            pick,
        );
        assert(run_step(states, before, after, callers, amounts, is_claim, k));
        assert(states.drop_last().last() == states[k]);
        assert(states.drop_last()[0] == states[0]);
    }
}

/// A successful withdrawal leaves the counter as it was and takes exactly
/// the amount out of the vault into the recipient.
pub proof fn lemma_withdraw_keeps_counter(
    s0: AirdropView,
    s1: AirdropView,
    a0: TokenAccount,
    a1: TokenAccount,
    caller: Pubkey,
    amount: u64,
    r: Result<(), AirdropError>,
)
    requires
        withdraw_outcome(s0, s1, a0, a1, caller, amount, r),
        r is Ok,
    ensures
        s1.state == s0.state,
        s1.claimed == s0.claimed,
        vault_balance(s1) == vault_balance(s0) - amount,
        a1 == credited(a0, amount),
{
}

/// A claim that would carry the counter past `u64::MAX` is refused and moves
/// nothing; with everything else in order the refusal is an arithmetic
/// overflow.
pub proof fn lemma_claim_overflow(
    s0: AirdropView,
    s1: AirdropView,
    a0: TokenAccount,
    a1: TokenAccount,
    claimer: Pubkey,
    amount: u64,
    signature_ok: bool,
    r: Result<ClaimEvent, AirdropError>,
)
    requires
        s0.state is Some,
        total_claimed(s0) + amount > u64::MAX,
        claim_outcome(s0, s1, a0, a1, claimer, amount, signature_ok, r),
    ensures
        r is Err,
        s1 == s0,
        a1 == a0,
        s0.vault is Some && a0.mint == s0.state->Some_0.token_mint && a0.owner == claimer && signature_ok
            && !s0.has_claimed(claimer) && amount <= vault_balance(s0) && a0.amount + amount <= u64::MAX
            ==> r == Err::<ClaimEvent, AirdropError>(AirdropError::ArithmeticOverflow),
{
}

} // verus!
