use crate::identifier::{
    encode_bytes, encode_u64, fields_encoding, lemma_encode_bytes_prefix, lemma_encode_u64_prefix,
    remittance_id_of,
};
use crate::pallet::{notify_outcome, submit_outcome, PalletModel};
use crate::types::{AccountId, BlockNumber, DispatchError, Error, EventModel, Origin};
use vstd::prelude::*;

verus! {

/// An accepted submission sets the sender's stored nonce to the submitted
/// nonce, which is strictly above the one stored before; every other
/// sender keeps its nonce. Whether accepted or not, no stored nonce
/// decreases.
pub proof fn law_accepted_submission_raises_nonce(
    s: PalletModel,
    origin: Origin,
    sender: AccountId,
    asset_id: Seq<u8>,
    recipient: AccountId,
    amount: Seq<u8>,
    corridor: Seq<u8>,
    nonce: u64,
    deadline: BlockNumber,
    chain_id: u64,
    other: AccountId,
)
    ensures
        ({
            let (r, t) = submit_outcome(
                s,
                origin,
                sender,
                asset_id,
                recipient,
                amount,
                corridor,
                nonce,
                deadline,
                chain_id,
            );
            &&& r is Ok ==> t.nonce_of(sender) == nonce && s.nonce_of(sender) < t.nonce_of(sender)
            &&& other != sender ==> t.nonce_of(other) == s.nonce_of(other)
            &&& s.nonce_of(other) <= t.nonce_of(other)
        }),
{
}

/// Once a submission from `sender` with nonce `nonce` has been accepted,
/// any later submission from `sender` with a nonce at most `nonce` fails with
/// `InvalidNonce` and changes nothing, whatever its other fields hold, as
/// long as it is signed, on the configured chain and not past its deadline.
pub proof fn law_replayed_nonce_rejected(
    s: PalletModel,
    origin: Origin,
    sender: AccountId,
    asset_id: Seq<u8>,
    recipient: AccountId,
    amount: Seq<u8>,
    corridor: Seq<u8>,
    nonce: u64,
    deadline: BlockNumber,
    chain_id: u64,
    origin2: Origin,
    asset_id2: Seq<u8>,
    recipient2: AccountId,
    amount2: Seq<u8>,
    corridor2: Seq<u8>,
    nonce2: u64,
    deadline2: BlockNumber,
    chain_id2: u64,
)
    requires
        submit_outcome(
            s,
            origin,
            sender,
            asset_id,
            recipient,
            amount,
            corridor,
            nonce,
            deadline,
            chain_id,
        ).0 is Ok,
        origin2 is Signed,
        chain_id2 == s.config.chain_id,
        deadline2 >= s.block_number,
        nonce2 <= nonce,
    ensures
        ({
            let t = submit_outcome(
                s,
                origin,
                sender,
                asset_id,
                recipient,
                amount,
                corridor,
                nonce,
                deadline,
                chain_id,
            ).1;
            submit_outcome(
                t,
                origin2,
                sender,
                asset_id2,
                recipient2,
                amount2,
                corridor2,
                nonce2,
                deadline2,
                chain_id2,
            ) == (Err::<Seq<u8>, DispatchError>(DispatchError::Module(Error::InvalidNonce)), t)
        }),
{
}

/// Identifier derivation is deterministic: two accepted submissions of the
/// same eight fields, from any two ledger states and by any relayers, return
/// the same identifier, the one derived from those fields.
pub proof fn law_same_fields_same_identifier(
    s1: PalletModel,
    s2: PalletModel,
    origin1: Origin,
    origin2: Origin,
    sender: AccountId,
    asset_id: Seq<u8>,
    recipient: AccountId,
    amount: Seq<u8>,
    corridor: Seq<u8>,
    nonce: u64,
    deadline: BlockNumber,
    chain_id: u64,
)
    requires
        submit_outcome(
            s1,
            origin1,
            sender,
            asset_id,
            recipient,
            amount,
            corridor,
            nonce,
            deadline,
            chain_id,
        ).0 is Ok,
        submit_outcome(
            s2,
            origin2,
            sender,
            asset_id,
            recipient,
            amount,
            corridor,
            nonce,
            deadline,
            chain_id,
        ).0 is Ok,
    ensures
        submit_outcome(
            s1,
            origin1,
            sender,
            asset_id,
            recipient,
            amount,
            corridor,
            nonce,
            deadline,
            chain_id,
        ).0 == submit_outcome(
            s2,
            origin2,
            sender,
            asset_id,
            recipient,
            amount,
            corridor,
            nonce,
            deadline,
            chain_id,
        ).0,
        submit_outcome(
            s1,
            origin1,
            sender,
            asset_id,
            recipient,
            amount,
            corridor,
            nonce,
            deadline,
            chain_id,
        ).0 == Ok::<Seq<u8>, DispatchError>(
            remittance_id_of(sender, recipient, amount, asset_id, corridor, nonce, deadline, chain_id),
        ),
{
}

/// The canonical encoding of a remittance's eight identifying fields
/// determines every field: two tuples whose byte fields fit the encoder's
/// 32-bit lengths and that differ in any field have different encodings, so
/// their identifiers differ unless BLAKE2b-256 collides on them.
pub proof fn law_encoding_determines_fields(
    sender1: AccountId,
    recipient1: AccountId,
    amount1: Seq<u8>,
    asset_id1: Seq<u8>,
    corridor1: Seq<u8>,
    nonce1: u64,
    deadline1: BlockNumber,
    chain_id1: u64,
    sender2: AccountId,
    recipient2: AccountId,
    amount2: Seq<u8>,
    asset_id2: Seq<u8>,
    corridor2: Seq<u8>,
    nonce2: u64,
    deadline2: BlockNumber,
    chain_id2: u64,
)
    requires
        amount1.len() <= u32::MAX,
        asset_id1.len() <= u32::MAX,
        corridor1.len() <= u32::MAX,
        amount2.len() <= u32::MAX,
        asset_id2.len() <= u32::MAX,
        corridor2.len() <= u32::MAX,
        fields_encoding(
            sender1,
            recipient1,
            amount1,
            asset_id1,
            corridor1,
            nonce1,
            deadline1,
            chain_id1,
        ) == fields_encoding(
            sender2,
            recipient2,
            amount2,
            asset_id2,
            corridor2,
            nonce2,
            deadline2,
            chain_id2,
        ),
    ensures
        sender1 == sender2,
        recipient1 == recipient2,
        amount1 == amount2,
        asset_id1 == asset_id2,
        corridor1 == corridor2,
        nonce1 == nonce2,
        deadline1 == deadline2,
        chain_id1 == chain_id2,
{
    let t1 = encode_u64(chain_id1) + Seq::<u8>::empty();
    let t2 = encode_u64(chain_id2) + Seq::<u8>::empty();
    let d1 = encode_u64(deadline1) + t1;
    let d2 = encode_u64(deadline2) + t2;
    let n1 = encode_u64(nonce1) + d1;
    let n2 = encode_u64(nonce2) + d2;
    let c1 = encode_bytes(corridor1) + n1;
    let c2 = encode_bytes(corridor2) + n2;
    let a1 = encode_bytes(asset_id1) + c1;
    let a2 = encode_bytes(asset_id2) + c2;
    let m1 = encode_bytes(amount1) + a1;
    let m2 = encode_bytes(amount2) + a2;
    let r1 = encode_u64(recipient1) + m1;
    let r2 = encode_u64(recipient2) + m2;
    assert(fields_encoding(
        sender1,
        recipient1,
        amount1,
        asset_id1,
        corridor1,
        nonce1,
        deadline1,
        chain_id1,
    ) =~= encode_u64(sender1) + r1);
    assert(fields_encoding(
        sender2,
        recipient2,
        amount2,
        asset_id2,
        corridor2,
        nonce2,
        deadline2,
        chain_id2,
    ) =~= encode_u64(sender2) + r2);
    lemma_encode_u64_prefix(sender1, sender2, r1, r2);
    lemma_encode_u64_prefix(recipient1, recipient2, m1, m2);
    lemma_encode_bytes_prefix(amount1, amount2, a1, a2);
    lemma_encode_bytes_prefix(asset_id1, asset_id2, c1, c2);
    lemma_encode_bytes_prefix(corridor1, corridor2, n1, n2);
    lemma_encode_u64_prefix(nonce1, nonce2, d1, d2);
    lemma_encode_u64_prefix(deadline1, deadline2, t1, t2);
    lemma_encode_u64_prefix(chain_id1, chain_id2, Seq::<u8>::empty(), Seq::<u8>::empty());
}

/// A deadline equal to the current block is accepted; one block earlier is
/// rejected with `DeadlineExpired` and changes nothing. This holds for a
/// signed submission on the configured chain whose nonce is fresh.
pub proof fn law_deadline_boundary(
    s: PalletModel,
    origin: Origin,
    sender: AccountId,
    asset_id: Seq<u8>,
    recipient: AccountId,
    amount: Seq<u8>,
    corridor: Seq<u8>,
    nonce: u64,
    chain_id: u64,
)
    requires
        origin is Signed,
        chain_id == s.config.chain_id,
        nonce > s.nonce_of(sender),
    ensures
        submit_outcome(
            s,
            origin,
            sender,
            asset_id,
            recipient,
            amount,
            corridor,
            nonce,
            s.block_number,
            chain_id,
        ).0 is Ok,
        s.block_number >= 1 ==> submit_outcome(
            s,
            origin,
            sender,
            asset_id,
            recipient,
            amount,
            corridor,
            nonce,
            (s.block_number - 1) as u64,
            chain_id,
        ) == (Err::<Seq<u8>, DispatchError>(DispatchError::Module(Error::DeadlineExpired)), s),
{
}

/// A signed submission whose chain identifier differs from the configured
/// one fails with `InvalidChainId` and changes nothing, whatever its other
/// fields hold.
pub proof fn law_wrong_chain_rejected(
    s: PalletModel,
    origin: Origin,
    sender: AccountId,
    asset_id: Seq<u8>,
    recipient: AccountId,
    amount: Seq<u8>,
    corridor: Seq<u8>,
    nonce: u64,
    deadline: BlockNumber,
    chain_id: u64,
)
    requires
        origin is Signed,
        chain_id != s.config.chain_id,
    ensures
        submit_outcome(
            s,
            origin,
            sender,
            asset_id,
            recipient,
            amount,
            corridor,
            nonce,
            deadline,
            chain_id,
        ) == (Err::<Seq<u8>, DispatchError>(DispatchError::Module(Error::InvalidChainId)), s),
{
}

/// Cash-out requests, cash-out completions and disputes succeed exactly when
/// the call is signed and the remittance is stored. They never change the
/// remittance store or the nonce registry, and a rejected one changes
/// nothing at all.
pub proof fn law_notifications_gated_by_existence(
    s: PalletModel,
    origin: Origin,
    id: Seq<u8>,
    e: EventModel,
)
    ensures
        ({
            let (r, t) = notify_outcome(s, origin, id, e);
            &&& r is Ok <==> (origin is Signed && s.remittances.contains_key(id))
            &&& t.remittances == s.remittances
            &&& t.nonces == s.nonces
            &&& r is Err ==> t == s
        }),
{
}

} // verus!
