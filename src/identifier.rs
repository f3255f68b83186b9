use crate::types::{AccountId, BlockNumber, RemittanceId};
use parity_scale_codec::Encode;
use vstd::arithmetic::div_mod::{lemma_mod_breakdown, lemma_small_mod};
use vstd::prelude::*;

verus! {

/// The `k` lowest bytes of `n`, least significant first.
pub open spec fn le_bytes(n: nat, k: nat) -> Seq<u8>
    decreases k,
{
    if k == 0 {
        Seq::empty()
    } else {
        seq![(n % 256) as u8] + le_bytes(n / 256, (k - 1) as nat)
    }
}

/// The SCALE compact encoding of a length that fits in 32 bits.
pub open spec fn compact_len(n: nat) -> Seq<u8> {
    if n < 0x40 {
        le_bytes(n * 4, 1)
    } else if n < 0x4000 {
        le_bytes(n * 4 + 1, 2)
    } else if n < 0x4000_0000 {
        le_bytes(n * 4 + 2, 4)
    } else {
        seq![3u8] + le_bytes(n, 4)
    }
}

/// The SCALE encoding of a byte vector: its compact length, then its bytes.
pub open spec fn encode_bytes(b: Seq<u8>) -> Seq<u8> {
    compact_len(b.len()) + b
}

/// The SCALE encoding of a `u64`: eight little-endian bytes.
pub open spec fn encode_u64(x: u64) -> Seq<u8> {
    le_bytes(x as nat, 8)
}

/// The canonical encoding of a remittance's eight identifying fields, in the
/// order sender, recipient, amount, asset identifier, corridor, nonce,
/// deadline, chain identifier.
pub open spec fn fields_encoding(
    sender: AccountId,
    recipient: AccountId,
    amount: Seq<u8>,
    asset_id: Seq<u8>,
    corridor: Seq<u8>,
    nonce: u64,
    deadline: BlockNumber,
    chain_id: u64,
) -> Seq<u8> {
    encode_u64(sender) + encode_u64(recipient) + encode_bytes(amount) + encode_bytes(asset_id)
        + encode_bytes(corridor) + encode_u64(nonce) + encode_u64(deadline) + encode_u64(chain_id)
}

/// `256` raised to the power `k`.
pub open spec fn pow256(k: nat) -> nat
    decreases k,
{
    if k == 0 {
        1
    } else {
        256 * pow256((k - 1) as nat)
    }
}

proof fn lemma_pow256_positive(k: nat)
    ensures
        pow256(k) > 0,
    decreases k,
{
    if k > 0 {
        lemma_pow256_positive((k - 1) as nat);
    }
}

proof fn lemma_le_bytes_len(n: nat, k: nat)
    ensures
        le_bytes(n, k).len() == k,
    decreases k,
{
    if k > 0 {
        lemma_le_bytes_len(n / 256, (k - 1) as nat);
    }
}

/// Equal little-endian byte strings of length `k` come from numbers that
/// agree modulo `256^k`.
proof fn lemma_le_bytes_injective(n: nat, m: nat, k: nat)
    requires
        le_bytes(n, k) == le_bytes(m, k),
    ensures
        n % pow256(k) == m % pow256(k),
    decreases k,
{
    if k > 0 {
        let k1 = (k - 1) as nat;
        assert(le_bytes(n, k)[0] == (n % 256) as u8);
        assert(le_bytes(m, k)[0] == (m % 256) as u8);
        assert(n % 256 == m % 256);
        assert(le_bytes(n, k).drop_first() =~= le_bytes(n / 256, k1));
        assert(le_bytes(m, k).drop_first() =~= le_bytes(m / 256, k1));
        lemma_le_bytes_injective(n / 256, m / 256, k1);
        lemma_pow256_positive(k1);
        lemma_mod_breakdown(n as int, 256, pow256(k1) as int);
        lemma_mod_breakdown(m as int, 256, pow256(k1) as int);
    }
}

proof fn lemma_pow256_values()
    ensures
        pow256(1) == 0x100,
        pow256(2) == 0x1_0000,
        pow256(4) == 0x1_0000_0000,
        pow256(8) == 0x1_0000_0000_0000_0000,
{
    assert(pow256(0) == 1);
    assert(pow256(1) == 0x100);
    assert(pow256(2) == 0x1_0000);
    assert(pow256(3) == 0x100_0000);
    assert(pow256(4) == 0x1_0000_0000);
    assert(pow256(5) == 0x100_0000_0000);
    assert(pow256(6) == 0x1_0000_0000_0000);
    assert(pow256(7) == 0x100_0000_0000_0000);
    assert(pow256(8) == 0x1_0000_0000_0000_0000);
}

/// The number of bytes in the compact encoding of `n`.
pub open spec fn compact_size(n: nat) -> nat {
    if n < 0x40 {
        1
    } else if n < 0x4000 {
        2
    } else if n < 0x4000_0000 {
        4
    } else {
        5
    }
}

/// The mode that the two low bits of a compact encoding's first byte name.
pub open spec fn compact_mode(n: nat) -> u8 {
    if n < 0x40 {
        0
    } else if n < 0x4000 {
        1
    } else if n < 0x4000_0000 {
        2
    } else {
        3
    }
}

proof fn lemma_compact_shape(n: nat)
    ensures
        compact_len(n).len() == compact_size(n),
        compact_len(n)[0] % 4 == compact_mode(n),
{
    lemma_le_bytes_len(n * 4, 1);
    lemma_le_bytes_len(n * 4 + 1, 2);
    lemma_le_bytes_len(n * 4 + 2, 4);
    lemma_le_bytes_len(n, 4);
    let t = compact_mode(n) as nat;
    if n < 0x4000_0000 {
        assert((n * 4 + t) % 256 % 4 == t) by (nonlinear_arith)
            requires
                t < 3,
        ;
        assert(compact_len(n)[0] == ((n * 4 + t) % 256) as u8);
    }
}

/// A compact length is determined by its encoding.
proof fn lemma_compact_injective(n: nat, m: nat)
    requires
        n <= u32::MAX,
        m <= u32::MAX,
        compact_len(n) == compact_len(m),
    ensures
        n == m,
{
    lemma_compact_shape(n);
    lemma_compact_shape(m);
    lemma_pow256_values();
    if n < 0x40 {
        lemma_le_bytes_injective(n * 4, m * 4, 1);
        lemma_small_mod(n * 4, 0x100);
        lemma_small_mod(m * 4, 0x100);
    } else if n < 0x4000 {
        lemma_le_bytes_injective(n * 4 + 1, m * 4 + 1, 2);
        lemma_small_mod(n * 4 + 1, 0x1_0000);
        lemma_small_mod(m * 4 + 1, 0x1_0000);
    } else if n < 0x4000_0000 {
        lemma_le_bytes_injective(n * 4 + 2, m * 4 + 2, 4);
        lemma_small_mod(n * 4 + 2, 0x1_0000_0000);
        lemma_small_mod(m * 4 + 2, 0x1_0000_0000);
    } else {
        assert(compact_len(n).drop_first() =~= le_bytes(n, 4));
        assert(compact_len(m).drop_first() =~= le_bytes(m, 4));
        lemma_le_bytes_injective(n, m, 4);
        lemma_small_mod(n, 0x1_0000_0000);
        lemma_small_mod(m, 0x1_0000_0000);
    }
}

/// An encoded byte vector can be read back from the front of a sequence:
/// equal sequences that start with encoded byte vectors start with the same
/// vector and continue alike.
pub proof fn lemma_encode_bytes_prefix(a: Seq<u8>, b: Seq<u8>, ra: Seq<u8>, rb: Seq<u8>)
    requires
        a.len() <= u32::MAX,
        b.len() <= u32::MAX,
        encode_bytes(a) + ra == encode_bytes(b) + rb,
    ensures
        a == b,
        ra == rb,
{
    let s = encode_bytes(a) + ra;
    lemma_compact_shape(a.len());
    lemma_compact_shape(b.len());
    assert(s[0] == compact_len(a.len())[0]);
    assert((encode_bytes(b) + rb)[0] == compact_len(b.len())[0]);
    let c = compact_size(a.len()) as int;
    assert(compact_len(a.len()) =~= s.subrange(0, c));
    assert(compact_len(b.len()) =~= (encode_bytes(b) + rb).subrange(0, c));
    lemma_compact_injective(a.len(), b.len());
    assert(a =~= s.subrange(c, c + a.len()));
    assert(b =~= (encode_bytes(b) + rb).subrange(c, c + b.len()));
    assert(ra =~= s.subrange(c + a.len(), s.len() as int));
    assert(rb =~= (encode_bytes(b) + rb).subrange(c + b.len(), s.len() as int));
}

/// An encoded `u64` can be read back from the front of a sequence.
pub proof fn lemma_encode_u64_prefix(x: u64, y: u64, rx: Seq<u8>, ry: Seq<u8>)
    requires
        encode_u64(x) + rx == encode_u64(y) + ry,
    ensures
        x == y,
        rx == ry,
{
    let s = encode_u64(x) + rx;
    lemma_le_bytes_len(x as nat, 8);
    lemma_le_bytes_len(y as nat, 8);
    assert(encode_u64(x) =~= s.subrange(0, 8));
    assert(encode_u64(y) =~= (encode_u64(y) + ry).subrange(0, 8));
    lemma_le_bytes_injective(x as nat, y as nat, 8);
    lemma_pow256_values();
    lemma_small_mod(x as nat, 0x1_0000_0000_0000_0000);
    lemma_small_mod(y as nat, 0x1_0000_0000_0000_0000);
    assert(rx =~= s.subrange(8, s.len() as int));
    assert(ry =~= (encode_u64(y) + ry).subrange(8, s.len() as int));
}

/// The BLAKE2b-256 digest of a byte sequence.
pub uninterp spec fn blake2_256_of(data: Seq<u8>) -> Seq<u8>;

/// The identifier of a remittance: the BLAKE2b-256 digest of the canonical
/// encoding of its eight identifying fields.
pub open spec fn remittance_id_of(
    sender: AccountId,
    recipient: AccountId,
    amount: Seq<u8>,
    asset_id: Seq<u8>,
    corridor: Seq<u8>,
    nonce: u64,
    deadline: BlockNumber,
    chain_id: u64,
) -> Seq<u8> {
    blake2_256_of(
        fields_encoding(sender, recipient, amount, asset_id, corridor, nonce, deadline, chain_id),
    )
}

/// Relies on parity-scale-codec's `Encode` for a tuple: the elements'
/// encodings in order, a `u64` as eight little-endian bytes and a byte
/// vector as its compact length followed by its bytes. A vector longer than
/// `u32::MAX` makes the encoder panic, so the lengths are bounded.
#[verifier::external_body]
fn scale_encode_fields(
    sender: AccountId,
    recipient: AccountId,
    amount: &Vec<u8>,
    asset_id: &Vec<u8>,
    corridor: &Vec<u8>,
    nonce: u64,
    deadline: BlockNumber,
    chain_id: u64,
) -> (r: Vec<u8>)
    requires
        amount@.len() <= u32::MAX,
        asset_id@.len() <= u32::MAX,
        corridor@.len() <= u32::MAX,
    ensures
        r@ == fields_encoding(
            sender,
            recipient,
            amount@,
            asset_id@,
            corridor@,
            nonce,
            deadline,
            chain_id,
        ),
{
    (sender, recipient, amount, asset_id, corridor, nonce, deadline, chain_id).encode()
}

/// Relies on `sp_crypto_hashing::blake2_256`: the 32-byte BLAKE2b digest,
/// which depends on the input bytes alone.
#[verifier::external_body]
fn blake2_256(data: &Vec<u8>) -> (r: [u8; 32])
    ensures
        r@ == blake2_256_of(data@),
{
    polkadot_sdk::sp_crypto_hashing::blake2_256(data.as_slice())
}

/// Derives the identifier of a remittance from its eight identifying fields.
pub fn derive_remittance_id(
    sender: AccountId,
    recipient: AccountId,
    amount: &Vec<u8>,
    asset_id: &Vec<u8>,
    corridor: &Vec<u8>,
    nonce: u64,
    deadline: BlockNumber,
    chain_id: u64,
) -> (r: RemittanceId)
    requires
        amount@.len() <= u32::MAX,
        asset_id@.len() <= u32::MAX,
        corridor@.len() <= u32::MAX,
    ensures
        r@ == remittance_id_of(
            sender,
            recipient,
            amount@,
            asset_id@,
            corridor@,
            nonce,
            deadline,
            chain_id,
        ),
{
    let encoded = scale_encode_fields(
        sender,
        recipient,
        amount,
        asset_id,
        corridor,
        nonce,
        deadline,
        chain_id,
    );
    blake2_256(&encoded)
}

} // verus!
