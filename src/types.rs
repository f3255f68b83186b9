use vstd::prelude::*;

verus! {

/// An account on the host chain.
pub type AccountId = u64;

/// A value of the host's logical clock (its block height).
pub type BlockNumber = u64;

/// The 32-byte identifier of a stored remittance.
pub type RemittanceId = [u8; 32];

/// Deployment constants of the ledger.
#[derive(Clone, Copy, Debug, PartialEq, Eq, Structural)]
pub struct Config {
    /// Largest accepted length of an asset identifier, in bytes.
    pub max_asset_id_len: u32,
    /// Largest accepted length of a corridor, in bytes.
    pub max_corridor_len: u32,
    /// Largest accepted length of an amount, in bytes.
    pub max_amount_len: u32,
    /// Largest accepted length of a dispute type, in bytes.
    pub max_dispute_type_len: u32,
    /// Largest accepted length of an evidence hash, in bytes.
    pub max_evidence_hash_len: u32,
    /// The chain identifier every submission must carry.
    pub chain_id: u64,
}

/// Who dispatched a command.
#[derive(Clone, Copy, Debug, PartialEq, Eq, Structural)]
pub enum Origin {
    /// An account that signed the call.
    Signed(AccountId),
    /// The privileged root origin.
    Root,
    /// An unsigned call.
    Unsigned,
}

/// The ledger's own rejections.
#[derive(Clone, Copy, Debug, PartialEq, Eq, Structural)]
pub enum Error {
    /// The nonce is not above the sender's stored nonce.
    InvalidNonce,
    /// The deadline lies before the current block.
    DeadlineExpired,
    /// The chain identifier differs from the configured one.
    InvalidChainId,
    /// No remittance is stored under the identifier.
    RemittanceNotFound,
}

/// Why a command was rejected.
#[derive(Clone, Copy, Debug, PartialEq, Eq, Structural)]
pub enum DispatchError {
    /// The command was not dispatched by a signed account.
    BadOrigin,
    /// The ledger rejected the command.
    Module(Error),
}

/// One stored remittance intent.
#[derive(Clone, Debug)]
pub struct RemittanceRecord {
    pub sender: AccountId,
    pub recipient: AccountId,
    pub asset_id: Vec<u8>,
    pub amount: Vec<u8>,
    pub corridor: Vec<u8>,
    pub nonce: u64,
    pub deadline: BlockNumber,
    pub chain_id: u64,
}

/// The mathematical value of a [`RemittanceRecord`].
pub struct RecordModel {
    pub sender: AccountId,
    pub recipient: AccountId,
    pub asset_id: Seq<u8>,
    pub amount: Seq<u8>,
    pub corridor: Seq<u8>,
    pub nonce: u64,
    pub deadline: BlockNumber,
    pub chain_id: u64,
}

impl View for RemittanceRecord {
    type V = RecordModel;

    open spec fn view(&self) -> RecordModel {
        RecordModel {
            sender: self.sender,
            recipient: self.recipient,
            asset_id: self.asset_id@,
            amount: self.amount@,
            corridor: self.corridor@,
            nonce: self.nonce,
            deadline: self.deadline,
            chain_id: self.chain_id,
        }
    }
}

/// A notification emitted by an accepted command.
#[derive(Clone, Debug)]
pub enum Event {
    /// A remittance was accepted:
    /// identifier, sender, recipient, amount, asset identifier, corridor.
    RemittanceSent(RemittanceId, AccountId, AccountId, Vec<u8>, Vec<u8>, Vec<u8>),
    /// An agent asked to cash out: identifier, agent, timeout block.
    CashOutRequested(RemittanceId, AccountId, BlockNumber),
    /// An agent completed a cash-out: identifier, agent.
    CashOutCompleted(RemittanceId, AccountId),
    /// A dispute was opened: identifier, opener, dispute type, evidence hash.
    DisputeOpened(RemittanceId, AccountId, Vec<u8>, Vec<u8>),
}

/// The mathematical value of an [`Event`].
pub enum EventModel {
    RemittanceSent(Seq<u8>, AccountId, AccountId, Seq<u8>, Seq<u8>, Seq<u8>),
    CashOutRequested(Seq<u8>, AccountId, BlockNumber),
    CashOutCompleted(Seq<u8>, AccountId),
    DisputeOpened(Seq<u8>, AccountId, Seq<u8>, Seq<u8>),
}

impl View for Event {
    type V = EventModel;

    open spec fn view(&self) -> EventModel {
        match self {
            Event::RemittanceSent(id, s, r, amount, asset, corridor) => EventModel::RemittanceSent(
                id@,
                *s,
                *r,
                amount@,
                asset@,
                corridor@,
            ),
            Event::CashOutRequested(id, agent, timeout) => EventModel::CashOutRequested(
                id@,
                *agent,
                *timeout,
            ),
            Event::CashOutCompleted(id, agent) => EventModel::CashOutCompleted(id@, *agent),
            Event::DisputeOpened(id, by, kind, evidence) => EventModel::DisputeOpened(
                id@,
                *by,
                kind@,
                evidence@,
            ),
        }
    }
}

} // verus!
