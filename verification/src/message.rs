use vstd::prelude::*;

use crate::account::AccountId;
use crate::asset::AssetId;

verus! {

/// The little-endian encoding of a non-negative integer on `n` bytes,
/// least-significant byte first.
pub open spec fn le_bytes(x: int, n: nat) -> Seq<u8>
    decreases n,
{
    if n == 0 {
        Seq::empty()
    } else {
        seq![(x % 256) as u8] + le_bytes(x / 256, (n - 1) as nat)
    }
}

/// The canonical byte form of a cross-chain claim message: the beneficiary's
/// identity bytes, then the amount on 16 bytes, the destination chain on 4
/// and the asset tag on 4, all little-endian.
pub open spec fn xcm_message_spec(
    beneficiary: Seq<u8>,
    amount: u128,
    destination_parachain: u32,
    asset_id: AssetId,
) -> Seq<u8> {
    beneficiary + le_bytes(amount as int, 16) + le_bytes(destination_parachain as int, 4)
        + le_bytes(asset_id.0 as int, 4)
}

/// The folded state after the first `n` message bytes have been absorbed:
/// byte `i` of the message is combined into slot `i % 32` by exclusive or.
pub open spec fn xor_fold(message: Seq<u8>, n: nat) -> Seq<u8>
    decreases n,
{
    if n == 0 {
        Seq::new(32, |j: int| 0u8)
    } else {
        let prev = xor_fold(message, (n - 1) as nat);
        let slot = ((n - 1) as int) % 32;
        prev.update(slot, prev[slot] ^ message[n - 1])
    }
}

/// The content digest of a message: a positional fold of its bytes into 32
/// slots. It is a function of the message bytes alone, so equal messages
/// always carry equal digests; it is a placeholder, not a collision-resistant
/// hash, and nothing security-relevant may rest on it.
pub open spec fn xcm_hash_spec(message: Seq<u8>) -> Seq<u8> {
    xor_fold(message, message.len())
}

proof fn lemma_xor_fold_len(message: Seq<u8>, n: nat)
    ensures
        xor_fold(message, n).len() == 32,
    decreases n,
{
    if n > 0 {
        lemma_xor_fold_len(message, (n - 1) as nat);
    }
}

/// Every content digest is exactly 32 bytes, whatever the message's length.
pub proof fn lemma_digest_len(message: Seq<u8>)
    ensures
        xcm_hash_spec(message).len() == 32,
{
    lemma_xor_fold_len(message, message.len());
}

/// The digest is a pure, deterministic function of the claim's fields alone:
/// two messages built from an equal beneficiary, amount, destination chain
/// and asset always carry equal digests, in whichever calls they were built.
pub proof fn lemma_digest_deterministic(
    beneficiary1: Seq<u8>,
    amount1: u128,
    destination1: u32,
    asset1: AssetId,
    beneficiary2: Seq<u8>,
    amount2: u128,
    destination2: u32,
    asset2: AssetId,
)
    requires
        beneficiary1 == beneficiary2,
        amount1 == amount2,
        destination1 == destination2,
        asset1 == asset2,
    ensures
        xcm_hash_spec(xcm_message_spec(beneficiary1, amount1, destination1, asset1))
            == xcm_hash_spec(xcm_message_spec(beneficiary2, amount2, destination2, asset2)),
{
}

fn u128_to_le_bytes(x: u128) -> (r: Vec<u8>)
    ensures
        r@ == le_bytes(x as int, 16),
{
    let mut out: Vec<u8> = Vec::new();
    let mut v: u128 = x;
    let mut i: usize = 0;
    while i < 16
        invariant
            i <= 16,
            out@.len() == i,
            le_bytes(x as int, 16) == out@ + le_bytes(v as int, (16 - i) as nat),
        decreases 16 - i,
    {
        let ghost prev = out@;
        let ghost pv = v as int;
        out.push((v % 256) as u8);
        v = v / 256;
        i += 1;
        proof {
            assert(le_bytes(pv, (16 - (i - 1)) as nat) == seq![(pv % 256) as u8] + le_bytes(
                pv / 256,
                (16 - i) as nat,
            ));
            assert(prev + le_bytes(pv, (17 - i) as nat) =~= out@ + le_bytes(
                v as int,
                (16 - i) as nat,
            ));
        }
    }
    assert(out@ + le_bytes(v as int, 0) =~= out@);
    out
}

fn u32_to_le_bytes(x: u32) -> (r: Vec<u8>)
    ensures
        r@ == le_bytes(x as int, 4),
{
    let mut out: Vec<u8> = Vec::new();
    let mut v: u32 = x;
    let mut i: usize = 0;
    while i < 4
        invariant
            i <= 4,
            out@.len() == i,
            le_bytes(x as int, 4) == out@ + le_bytes(v as int, (4 - i) as nat),
        decreases 4 - i,
    {
        let ghost prev = out@;
        let ghost pv = v as int;
        out.push((v % 256) as u8);
        v = v / 256;
        i += 1;
        proof {
            assert(le_bytes(pv, (4 - (i - 1)) as nat) == seq![(pv % 256) as u8] + le_bytes(
                pv / 256,
                (4 - i) as nat,
            ));
            assert(prev + le_bytes(pv, (5 - i) as nat) =~= out@ + le_bytes(
                v as int,
                (4 - i) as nat,
            ));
        }
    }
    assert(out@ + le_bytes(v as int, 0) =~= out@);
    out
}

/// Builds the destination-bound claim message from a deposit's fields: a pure
/// concatenation of fixed-width encodings in a fixed order.
pub fn build_xcm_message(
    beneficiary: &AccountId,
    amount: u128,
    destination_parachain: u32,
    asset_id: AssetId,
) -> (r: Vec<u8>)
    ensures
        r@ == xcm_message_spec(beneficiary@, amount, destination_parachain, asset_id),
{
    let mut message: Vec<u8> = beneficiary.to_bytes();
    let mut amount_bytes = u128_to_le_bytes(amount);
    message.append(&mut amount_bytes);
    let mut destination_bytes = u32_to_le_bytes(destination_parachain);
    message.append(&mut destination_bytes);
    let mut asset_bytes = u32_to_le_bytes(asset_id.0);
    message.append(&mut asset_bytes);
    assert(message@ =~= xcm_message_spec(beneficiary@, amount, destination_parachain, asset_id));
    message
}

/// Derives the 32-byte content digest of a claim message by the positional
/// fold `xcm_hash_spec` describes.
pub fn calculate_xcm_hash(message: &[u8]) -> (r: [u8; 32])
    ensures
        r@ == xcm_hash_spec(message@),
{
    let mut hash: [u8; 32] = [0u8; 32];
    assert(hash@ =~= xor_fold(message@, 0));
    let mut i: usize = 0;
    while i < message.len()
        invariant
            i <= message@.len(),
            hash@ == xor_fold(message@, i as nat),
        decreases message@.len() - i,
    {
        let ghost prev = hash@;
        let slot = i % 32;
        proof {
            lemma_xor_fold_len(message@, i as nat);
        }
        hash[slot] = hash[slot] ^ message[i];
        i += 1;
        proof {
            assert(xor_fold(message@, i as nat) == prev.update(
                (i - 1) % 32,
                prev[((i - 1) % 32) as int] ^ message@[i - 1],
            ));
        }
    }
    hash
}

} // verus!
