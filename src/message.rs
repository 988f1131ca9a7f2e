use vstd::prelude::*;

use crate::pubkey::Pubkey;
use crate::types::ClaimMessage;

verus! {

/// The `n` low-order bytes of `v`, least significant first.
pub open spec fn le_bytes(v: nat, n: nat) -> Seq<u8>
    decreases n,
{
    if n == 0 {
        seq![]
    } else {
        seq![(v % 256) as u8] + le_bytes(v / 256, (n - 1) as nat)
    }
}

/// The signed form of a claim: the claimant's 32 bytes, then the amount as
/// eight little-endian bytes.
pub open spec fn claim_message_bytes(wallet: Seq<u8>, amount: u64) -> Seq<u8> {
    wallet + le_bytes(amount as nat, 8)
}

/// The data of an ed25519 verification request: a zero tag, the key length,
/// the key, the message length as two little-endian bytes, the message and
/// the signature.
pub open spec fn verify_request_bytes(key: Seq<u8>, msg: Seq<u8>, sig: Seq<u8>) -> Seq<u8> {
    seq![0u8, key.len() as u8] + key + le_bytes(msg.len(), 2) + msg + sig
}

/// Appends the `n` low-order bytes of `v` to `out`, least significant first.
fn push_le(out: &mut Vec<u8>, v: u64, n: usize)
    requires
        n <= 8,
    ensures
        final(out)@ == old(out)@ + le_bytes(v as nat, n as nat),
{
    let mut rest: u64 = v;
    let mut k: usize = 0;
    while k < n
        invariant
            k <= n <= 8,
            out@ + le_bytes(rest as nat, (n - k) as nat) == old(out)@ + le_bytes(v as nat, n as nat),
        decreases n - k,
    {
        let ghost before = out@;
        out.push((rest % 256) as u8);
        proof {
            assert(le_bytes(rest as nat, (n - k) as nat) == seq![(rest % 256) as u8] + le_bytes(
                (rest / 256) as nat,
                (n - k - 1) as nat,
            ));
            assert(out@ + le_bytes((rest / 256) as nat, (n - k - 1) as nat) =~= before + le_bytes(
                rest as nat,
                (n - k) as nat,
            ));
        }
        rest = rest / 256;
        k = k + 1;
    }
    proof {
        assert(out@ =~= out@ + le_bytes(rest as nat, 0));
    }
}

/// Appends all of `src` to `out`.
fn append_bytes(out: &mut Vec<u8>, src: &[u8])
    ensures
        final(out)@ == old(out)@ + src@,
{
    let mut i: usize = 0;
    while i < src.len()
        invariant
            i <= src@.len(),
            out@ == old(out)@ + src@.subrange(0, i as int),
        decreases src@.len() - i,
    {
        out.push(src[i]);
        proof {
            assert(out@ =~= old(out)@ + src@.subrange(0, i + 1));
        }
        i = i + 1;
    }
    proof {
        assert(src@.subrange(0, src@.len() as int) =~= src@);
    }
}

impl ClaimMessage {
    /// The bytes over which the offline signer signs this claim.
    pub fn try_to_vec(&self) -> (r: Vec<u8>)
        ensures
            r@ == claim_message_bytes(self.wallet@, self.amount),
            r@.len() == 40,
    {
        let mut out: Vec<u8> = Vec::new();
        append_bytes(&mut out, self.wallet.bytes.as_slice());
        push_le(&mut out, self.amount, 8);
        proof {
            lemma_le_bytes_len(self.amount as nat, 8);
        }
        out
    }
}

/// `le_bytes(v, n)` has `n` bytes.
pub proof fn lemma_le_bytes_len(v: nat, n: nat)
    ensures
        le_bytes(v, n).len() == n,
    decreases n,
{
    if n > 0 {
        lemma_le_bytes_len(v / 256, (n - 1) as nat);
    }
}

/// The data of a request to the ed25519 verifier: does `signature` sign
/// `message` under `signer`?
pub fn ed25519_request_data(signer: &Pubkey, message: &Vec<u8>, signature: &[u8; 64]) -> (r: Vec<u8>)
    requires
        message@.len() <= u16::MAX,
    ensures
        r@ == verify_request_bytes(signer@, message@, signature@),
{
    let mut out: Vec<u8> = Vec::new();
    out.push(0u8);
    out.push(32u8);
    append_bytes(&mut out, signer.bytes.as_slice());
    push_le(&mut out, message.len() as u64, 2);
    append_bytes(&mut out, message.as_slice());
    append_bytes(&mut out, signature.as_slice());
    proof {
        assert(out@ =~= verify_request_bytes(signer@, message@, signature@));
    }
    out
}

} // verus!
