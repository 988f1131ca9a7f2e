use airdrop::message::ed25519_request_data;
use airdrop::{Airdrop, AirdropError, ClaimMessage, Pubkey, TokenAccount};

fn key(b: u8) -> Pubkey {
    Pubkey::new_from_array([b; 32])
}

const PROGRAM: u8 = 9;
const OWNER: u8 = 1;
const MINT: u8 = 2;
const SIGNER: u8 = 3;
const C1: u8 = 4;
const C2: u8 = 5;
const OTHER: u8 = 6;

fn account(addr: u8, owner: u8, mint: u8, amount: u64) -> TokenAccount {
    TokenAccount { key: key(addr), mint: key(mint), owner: key(owner), amount }
}

/// A deployment with the state record, a bound vault and `funds` in it.
fn ready(funds: u64) -> Airdrop {
    let mut d = Airdrop::new(key(PROGRAM));
    d.initialize(key(OWNER), key(MINT), key(SIGNER)).unwrap();
    d.create_vault(&key(OWNER), &key(MINT)).unwrap();
    if funds > 0 {
        let mut src = account(40, OWNER, MINT, funds);
        d.fund(&mut src, funds).unwrap();
        assert_eq!(src.amount, 0);
    }
    d
}

fn vault_amount(d: &Airdrop) -> u64 {
    d.vault.unwrap().amount
}

fn total(d: &Airdrop) -> u64 {
    d.state.unwrap().total_claimed
}

#[test]
fn scenario_claim_then_withdraw() {
    let mut d = ready(1000);
    assert_eq!(vault_amount(&d), 1000);
    let mut r1 = account(50, C1, MINT, 0);
    let ev = d.claim(&key(C1), &mut r1, 100, true).unwrap();
    assert_eq!(ev.user, key(C1));
    assert_eq!(ev.amount, 100);
    assert_eq!(total(&d), 100);
    assert_eq!(vault_amount(&d), 900);
    assert_eq!(r1.amount, 100);
    assert!(d.claim_record(&key(C1)).is_claimed);

    let before = d.claimed.clone();
    assert_eq!(d.claim(&key(C1), &mut r1, 100, true).unwrap_err(), AirdropError::AlreadyClaimed);
    assert_eq!(total(&d), 100);
    assert_eq!(vault_amount(&d), 900);
    assert_eq!(r1.amount, 100);
    assert_eq!(d.claimed, before);

    let mut dest = account(60, OWNER, MINT, 0);
    d.withdraw(&key(OWNER), &mut dest, 900).unwrap();
    assert_eq!(vault_amount(&d), 0);
    assert_eq!(dest.amount, 900);

    let mut other = account(61, OTHER, MINT, 0);
    assert_eq!(d.withdraw(&key(OTHER), &mut other, 1).unwrap_err(), AirdropError::Unauthorized);
    assert_eq!(vault_amount(&d), 0);
    assert_eq!(other.amount, 0);
}

#[test]
fn initialize_sets_the_record() {
    let mut d = Airdrop::new(key(PROGRAM));
    assert!(d.state.is_none());
    d.initialize(key(OWNER), key(MINT), key(SIGNER)).unwrap();
    let st = d.state.unwrap();
    assert_eq!(st.owner, key(OWNER));
    assert_eq!(st.token_mint, key(MINT));
    assert_eq!(st.signer, key(SIGNER));
    assert_eq!(st.total_claimed, 0);
    assert!(st.token_vault.is_none());
    // The state lives at a derived address, not at the program's own.
    assert_ne!(d.state_key, key(PROGRAM));
}

#[test]
fn initialize_twice_is_refused() {
    let mut d = Airdrop::new(key(PROGRAM));
    d.initialize(key(OWNER), key(MINT), key(SIGNER)).unwrap();
    let st = d.state.unwrap();
    assert_eq!(d.initialize(key(OTHER), key(OTHER), key(OTHER)).unwrap_err(), AirdropError::AlreadyExists);
    assert_eq!(d.state.unwrap().owner, st.owner);
    assert_eq!(d.state.unwrap().signer, st.signer);
}

#[test]
fn derived_addresses_depend_on_the_program() {
    let mut a = Airdrop::new(key(PROGRAM));
    let mut b = Airdrop::new(key(PROGRAM));
    let mut c = Airdrop::new(key(OTHER));
    a.initialize(key(OWNER), key(MINT), key(SIGNER)).unwrap();
    b.initialize(key(OWNER), key(MINT), key(SIGNER)).unwrap();
    c.initialize(key(OWNER), key(MINT), key(SIGNER)).unwrap();
    assert_eq!(a.state_key, b.state_key);
    assert_eq!(a.state.unwrap().bump, b.state.unwrap().bump);
    assert_ne!(a.state_key, c.state_key);
}

#[test]
fn create_vault_binds_a_vault_owned_by_the_state() {
    let mut d = Airdrop::new(key(PROGRAM));
    d.initialize(key(OWNER), key(MINT), key(SIGNER)).unwrap();
    d.create_vault(&key(OWNER), &key(MINT)).unwrap();
    let v = d.vault.unwrap();
    assert_eq!(v.owner, d.state_key);
    assert_eq!(v.mint, key(MINT));
    assert_eq!(v.amount, 0);
    assert_eq!(d.state.unwrap().token_vault, Some(v.key));
    assert_ne!(v.key, d.state_key);
}

#[test]
fn create_vault_errors() {
    let mut d = Airdrop::new(key(PROGRAM));
    assert_eq!(d.create_vault(&key(OWNER), &key(MINT)).unwrap_err(), AirdropError::NotInitialized);
    d.initialize(key(OWNER), key(MINT), key(SIGNER)).unwrap();
    assert_eq!(d.create_vault(&key(OTHER), &key(MINT)).unwrap_err(), AirdropError::Unauthorized);
    assert_eq!(d.create_vault(&key(OWNER), &key(OTHER)).unwrap_err(), AirdropError::MintMismatch);
    assert!(d.vault.is_none());
    d.create_vault(&key(OWNER), &key(MINT)).unwrap();
    assert_eq!(d.create_vault(&key(OWNER), &key(MINT)).unwrap_err(), AirdropError::AlreadyExists);
}

#[test]
fn claim_twice_pays_once() {
    let mut d = ready(500);
    let mut r = account(50, C1, MINT, 0);
    assert!(d.claim(&key(C1), &mut r, 30, true).is_ok());
    assert_eq!(d.claim(&key(C1), &mut r, 30, true).unwrap_err(), AirdropError::AlreadyClaimed);
    assert_eq!(d.claim(&key(C1), &mut r, 1, true).unwrap_err(), AirdropError::AlreadyClaimed);
    assert_eq!(r.amount, 30);
    assert_eq!(vault_amount(&d), 470);
    assert_eq!(total(&d), 30);
}

#[test]
fn invalid_signature_changes_nothing() {
    let mut d = ready(500);
    let mut r = account(50, C1, MINT, 7);
    assert_eq!(d.claim(&key(C1), &mut r, 30, false).unwrap_err(), AirdropError::InvalidSignature);
    assert_eq!(r.amount, 7);
    assert_eq!(vault_amount(&d), 500);
    assert_eq!(total(&d), 0);
    assert!(!d.claim_record(&key(C1)).is_claimed);
    assert!(d.claimed.is_empty());
}

#[test]
fn withdraw_by_stranger_changes_nothing() {
    let mut d = ready(500);
    let mut dest = account(60, OTHER, MINT, 0);
    assert_eq!(d.withdraw(&key(OTHER), &mut dest, 10).unwrap_err(), AirdropError::Unauthorized);
    assert_eq!(vault_amount(&d), 500);
    assert_eq!(dest.amount, 0);
}

#[test]
fn claims_are_conserved() {
    let mut d = ready(1000);
    let mut r1 = account(50, C1, MINT, 0);
    let mut r2 = account(51, C2, MINT, 0);
    let mut r3 = account(52, OTHER, MINT, 0);
    d.claim(&key(C1), &mut r1, 100, true).unwrap();
    d.claim(&key(C2), &mut r2, 250, true).unwrap();
    d.claim(&key(OTHER), &mut r3, 50, true).unwrap();
    assert_eq!(total(&d), 400);
    assert_eq!(vault_amount(&d), 600);
    assert_eq!(r1.amount + r2.amount + r3.amount, 400);
    let mut dest = account(60, OWNER, MINT, 0);
    d.withdraw(&key(OWNER), &mut dest, 100).unwrap();
    assert_eq!(total(&d), 400);
    assert_eq!(vault_amount(&d), 500);
}

#[test]
fn counter_overflow_is_refused() {
    let mut d = ready(1000);
    let mut st = d.state.unwrap();
    st.total_claimed = u64::MAX - 5;
    d.state = Some(st);
    let mut r = account(50, C1, MINT, 0);
    assert_eq!(d.claim(&key(C1), &mut r, 6, true).unwrap_err(), AirdropError::ArithmeticOverflow);
    assert_eq!(r.amount, 0);
    assert_eq!(vault_amount(&d), 1000);
    assert!(!d.claim_record(&key(C1)).is_claimed);
    d.claim(&key(C1), &mut r, 5, true).unwrap();
    assert_eq!(total(&d), u64::MAX);
}

#[test]
fn claim_account_errors() {
    let mut fresh = Airdrop::new(key(PROGRAM));
    let mut r = account(50, C1, MINT, 0);
    assert_eq!(fresh.claim(&key(C1), &mut r, 1, true).unwrap_err(), AirdropError::NotInitialized);
    fresh.initialize(key(OWNER), key(MINT), key(SIGNER)).unwrap();
    assert_eq!(fresh.claim(&key(C1), &mut r, 1, true).unwrap_err(), AirdropError::VaultNotBound);

    let mut d = ready(10);
    let mut wrong_mint = account(50, C1, OTHER, 0);
    assert_eq!(d.claim(&key(C1), &mut wrong_mint, 1, true).unwrap_err(), AirdropError::MintMismatch);
    let mut not_mine = account(50, C2, MINT, 0);
    assert_eq!(d.claim(&key(C1), &mut not_mine, 1, true).unwrap_err(), AirdropError::OwnerMismatch);
    assert_eq!(d.claim(&key(C1), &mut r, 11, true).unwrap_err(), AirdropError::InsufficientFunds);
    let mut full = account(50, C1, MINT, u64::MAX);
    assert_eq!(d.claim(&key(C1), &mut full, 1, true).unwrap_err(), AirdropError::BalanceOverflow);
    assert!(!d.claim_record(&key(C1)).is_claimed);
    assert_eq!(vault_amount(&d), 10);
    d.claim(&key(C1), &mut r, 10, true).unwrap();
    assert_eq!(vault_amount(&d), 0);
}

#[test]
fn withdraw_errors() {
    let mut fresh = Airdrop::new(key(PROGRAM));
    let mut dest = account(60, OWNER, MINT, 0);
    assert_eq!(fresh.withdraw(&key(OWNER), &mut dest, 1).unwrap_err(), AirdropError::NotInitialized);
    fresh.initialize(key(OWNER), key(MINT), key(SIGNER)).unwrap();
    assert_eq!(fresh.withdraw(&key(OWNER), &mut dest, 1).unwrap_err(), AirdropError::VaultNotBound);

    let mut d = ready(10);
    let mut wrong_mint = account(60, OWNER, OTHER, 0);
    assert_eq!(d.withdraw(&key(OWNER), &mut wrong_mint, 1).unwrap_err(), AirdropError::MintMismatch);
    assert_eq!(d.withdraw(&key(OWNER), &mut dest, 11).unwrap_err(), AirdropError::InsufficientFunds);
    let mut full = account(60, OWNER, MINT, u64::MAX - 3);
    assert_eq!(d.withdraw(&key(OWNER), &mut full, 4).unwrap_err(), AirdropError::BalanceOverflow);
    assert_eq!(vault_amount(&d), 10);
    d.withdraw(&key(OWNER), &mut full, 3).unwrap();
    assert_eq!(full.amount, u64::MAX);
    assert_eq!(vault_amount(&d), 7);
}

#[test]
fn fund_errors() {
    let mut fresh = Airdrop::new(key(PROGRAM));
    let mut src = account(40, OWNER, MINT, 10);
    assert_eq!(fresh.fund(&mut src, 1).unwrap_err(), AirdropError::NotInitialized);
    fresh.initialize(key(OWNER), key(MINT), key(SIGNER)).unwrap();
    assert_eq!(fresh.fund(&mut src, 1).unwrap_err(), AirdropError::VaultNotBound);

    let mut d = ready(0);
    let mut wrong = account(40, OWNER, OTHER, 10);
    assert_eq!(d.fund(&mut wrong, 1).unwrap_err(), AirdropError::MintMismatch);
    assert_eq!(d.fund(&mut src, 11).unwrap_err(), AirdropError::InsufficientFunds);
    let mut big = account(41, OWNER, MINT, u64::MAX);
    d.fund(&mut big, u64::MAX).unwrap();
    assert_eq!(d.fund(&mut src, 1).unwrap_err(), AirdropError::BalanceOverflow);
    assert_eq!(src.amount, 10);
    assert_eq!(vault_amount(&d), u64::MAX);
}

#[test]
fn claim_message_bytes() {
    let msg = ClaimMessage { wallet: key(7), amount: 0x0102_0304_0506_0708 };
    let bytes = msg.try_to_vec();
    assert_eq!(bytes.len(), 40);
    assert_eq!(&bytes[..32], &[7u8; 32][..]);
    assert_eq!(&bytes[32..], &[8, 7, 6, 5, 4, 3, 2, 1][..]);
}

#[test]
fn ed25519_request_layout() {
    let msg = vec![0xAAu8; 300];
    let sig = [0x55u8; 64];
    let data = ed25519_request_data(&key(3), &msg, &sig);
    assert_eq!(data.len(), 2 + 32 + 2 + 300 + 64);
    assert_eq!(data[0], 0);
    assert_eq!(data[1], 32);
    assert_eq!(&data[2..34], &[3u8; 32][..]);
    assert_eq!(data[34], 44);
    assert_eq!(data[35], 1);
    assert_eq!(&data[36..336], &msg[..]);
    assert_eq!(&data[336..], &sig[..]);
}

#[test]
fn signature_request_uses_the_configured_signer() {
    let fresh = Airdrop::new(key(PROGRAM));
    assert_eq!(fresh.signature_request(&key(C1), 100, &[1u8; 64]).unwrap_err(), AirdropError::NotInitialized);
    let d = ready(0);
    let data = d.signature_request(&key(C1), 100, &[1u8; 64]).unwrap();
    assert_eq!(data.len(), 2 + 32 + 2 + 40 + 64);
    assert_eq!(&data[2..34], &[SIGNER; 32][..]);
    assert_eq!(data[34], 40);
    assert_eq!(data[35], 0);
    assert_eq!(&data[36..68], &[C1; 32][..]);
    assert_eq!(&data[68..76], &[100, 0, 0, 0, 0, 0, 0, 0][..]);
    assert_eq!(&data[76..], &[1u8; 64][..]);
}
