use crate::identifier::{derive_remittance_id, remittance_id_of};
use crate::store::RemittanceStore;
use crate::types::{
    AccountId, BlockNumber, Config, DispatchError, Error, Event, EventModel, Origin, RecordModel,
    RemittanceId, RemittanceRecord,
};
use std::collections::HashMap;
use vstd::prelude::*;

verus! {

broadcast use vstd::std_specs::hash::group_hash_axioms;

/// The mathematical state of the ledger.
pub struct PalletModel {
    pub config: Config,
    /// The current value of the host's logical clock.
    pub block_number: BlockNumber,
    /// The nonce registry: the last accepted nonce of each sender.
    pub nonces: Map<AccountId, u64>,
    /// The remittance store, keyed by identifier.
    pub remittances: Map<Seq<u8>, RecordModel>,
    /// Every notification emitted so far, oldest first.
    pub events: Seq<EventModel>,
}

impl PalletModel {
    /// The stored nonce of `who`, zero when none was recorded.
    pub open spec fn nonce_of(self, who: AccountId) -> u64 {
        if self.nonces.contains_key(who) {
            self.nonces[who]
        } else {
            0
        }
    }

    /// This state with one more notification.
    pub open spec fn emit(self, e: EventModel) -> PalletModel {
        PalletModel { events: self.events.push(e), ..self }
    }
}

/// The result and the next state of a remittance submission.
pub open spec fn submit_outcome(
    s: PalletModel,
    origin: Origin,
    sender: AccountId,
    asset_id: Seq<u8>,
    recipient: AccountId,
    amount: Seq<u8>,
    corridor: Seq<u8>,
    nonce: u64,
    deadline: BlockNumber,
    chain_id: u64,
) -> (Result<Seq<u8>, DispatchError>, PalletModel) {
    if !(origin is Signed) {
        (Err(DispatchError::BadOrigin), s)
    } else if chain_id != s.config.chain_id {
        (Err(DispatchError::Module(Error::InvalidChainId)), s)
    } else if deadline < s.block_number {
        (Err(DispatchError::Module(Error::DeadlineExpired)), s)
    } else if nonce <= s.nonce_of(sender) {
        (Err(DispatchError::Module(Error::InvalidNonce)), s)
    } else {
        let id = remittance_id_of(
            sender,
            recipient,
            amount,
            asset_id,
            corridor,
            nonce,
            deadline,
            chain_id,
        );
        let record = RecordModel {
            sender,
            recipient,
            asset_id,
            amount,
            corridor,
            nonce,
            deadline,
            chain_id,
        };
        let next = PalletModel {
            nonces: s.nonces.insert(sender, nonce),
            remittances: s.remittances.insert(id, record),
            ..s
        };
        (
            Ok(id),
            next.emit(EventModel::RemittanceSent(id, sender, recipient, amount, asset_id, corridor)),
        )
    }
}

/// The result and the next state of a command that only emits `e` about the
/// remittance `id`: cash-out requests, cash-out completions and disputes.
pub open spec fn notify_outcome(s: PalletModel, origin: Origin, id: Seq<u8>, e: EventModel) -> (
    Result<(), DispatchError>,
    PalletModel,
) {
    if !(origin is Signed) {
        (Err(DispatchError::BadOrigin), s)
    } else if !s.remittances.contains_key(id) {
        (Err(DispatchError::Module(Error::RemittanceNotFound)), s)
    } else {
        (Ok(()), s.emit(e))
    }
}

/// The identifier in a submission's result, as a byte sequence.
pub open spec fn id_result(r: Result<RemittanceId, DispatchError>) -> Result<
    Seq<u8>,
    DispatchError,
> {
    match r {
        Ok(id) => Ok(id@),
        Err(e) => Err(e),
    }
}

/// The account that signed `origin`, or `BadOrigin`.
pub fn ensure_signed(origin: Origin) -> (r: Result<AccountId, DispatchError>)
    ensures
        match origin {
            Origin::Signed(who) => r == Ok::<AccountId, DispatchError>(who),
            _ => r == Err::<AccountId, DispatchError>(DispatchError::BadOrigin),
        },
{
    match origin {
        Origin::Signed(who) => Ok(who),
        _ => Err(DispatchError::BadOrigin),
    }
}

/// A copy of a byte vector.
fn copy_bytes(b: &Vec<u8>) -> (r: Vec<u8>)
    ensures
        r@ == b@,
{
    let mut r: Vec<u8> = Vec::with_capacity(b.len());
    let mut i: usize = 0;
    while i < b.len()
        invariant
            i <= b@.len(),
            r@ == b@.take(i as int),
        decreases b@.len() - i,
    {
        r.push(b[i]);
        i += 1;
        assert(r@ =~= b@.take(i as int));
    }
    assert(b@.take(i as int) =~= b@);
    r
}

/// The remittance ledger: its configuration, the host's logical clock, the
/// nonce registry, the remittance store and the notifications emitted.
pub struct Pallet {
    config: Config,
    block_number: BlockNumber,
    relayer_nonces: HashMap<AccountId, u64>,
    remittances: RemittanceStore,
    events: Vec<Event>,
}

impl View for Pallet {
    type V = PalletModel;

    closed spec fn view(&self) -> PalletModel {
        PalletModel {
            config: self.config,
            block_number: self.block_number,
            nonces: self.relayer_nonces@,
            remittances: self.remittances@,
            events: self.events@.map_values(|e: Event| e@),
        }
    }
}

impl Pallet {
    /// A ledger with no nonces, no remittances and no notifications, at
    /// block zero.
    pub fn new(config: Config) -> (r: Pallet)
        ensures
            r@ == (PalletModel {
                config,
                block_number: 0,
                nonces: Map::empty(),
                remittances: Map::empty(),
                events: Seq::empty(),
            }),
    {
        let r = Pallet {
            config,
            block_number: 0,
            relayer_nonces: HashMap::new(),
            remittances: RemittanceStore::new(),
            events: Vec::new(),
        };
        assert(r.events@.map_values(|e: Event| e@) =~= Seq::<EventModel>::empty());
        r
    }

    /// The deployment constants.
    pub fn config(&self) -> (r: Config)
        ensures
            r == self@.config,
    {
        self.config
    }

    /// The current block.
    pub fn block_number(&self) -> (r: BlockNumber)
        ensures
            r == self@.block_number,
    {
        self.block_number
    }

    /// Moves the logical clock to block `n`.
    pub fn set_block_number(&mut self, n: BlockNumber)
        ensures
            final(self)@ == (PalletModel { block_number: n, ..old(self)@ }),
    {
        self.block_number = n;
    }

    /// The stored nonce of `who`, zero when none was recorded.
    pub fn relayer_nonce(&self, who: AccountId) -> (r: u64)
        ensures
            r == self@.nonce_of(who),
    {
        match self.relayer_nonces.get(&who) {
            Some(n) => *n,
            None => 0,
        }
    }

    /// The remittance stored under `id`, if any.
    pub fn remittance(&self, id: &RemittanceId) -> (r: Option<&RemittanceRecord>)
        ensures
            match r {
                Some(rec) => self@.remittances.contains_key(id@) && self@.remittances[id@]
                    == rec@,
                None => !self@.remittances.contains_key(id@),
            },
    {
        self.remittances.get(id)
    }

    /// The notifications emitted so far, oldest first.
    pub fn events(&self) -> (r: &Vec<Event>)
        ensures
            r@.map_values(|e: Event| e@) == self@.events,
    {
        &self.events
    }

    /// Appends a notification.
    fn deposit_event(&mut self, e: Event)
        ensures
            final(self)@ == old(self)@.emit(e@),
    {
        self.events.push(e);
        assert(self.events@.map_values(|e: Event| e@) =~= old(self).events@.map_values(
            |e: Event| e@,
        ).push(e@));
    }

    /// Records a remittance forwarded by a relayer on behalf of `sender`.
    ///
    /// The call must be signed (by the relayer), carry the configured chain
    /// identifier, have a deadline no earlier than the current block and a
    /// nonce above the sender's stored one; the checks run in that order and
    /// the first that fails decides the error. On success the sender's nonce
    /// becomes `nonce`, the record is stored under its derived identifier,
    /// `RemittanceSent` is emitted and the identifier is returned. On failure
    /// nothing changes. The forwarded signature is not checked.
    pub fn send_remittance_gasless(
        &mut self,
        origin: Origin,
        sender: AccountId,
        _signature: Vec<u8>,
        asset_id: Vec<u8>,
        recipient: AccountId,
        amount: Vec<u8>,
        corridor: Vec<u8>,
        nonce: u64,
        deadline: BlockNumber,
        chain_id: u64,
    ) -> (r: Result<RemittanceId, DispatchError>)
        requires
            asset_id@.len() <= old(self)@.config.max_asset_id_len,
            amount@.len() <= old(self)@.config.max_amount_len,
            corridor@.len() <= old(self)@.config.max_corridor_len,
        ensures
            (id_result(r), final(self)@) == submit_outcome(
                old(self)@,
                origin,
                sender,
                asset_id@,
                recipient,
                amount@,
                corridor@,
                nonce,
                deadline,
                chain_id,
            ),
    {
        let _relayer = match ensure_signed(origin) {
            Ok(who) => who,
            Err(e) => return Err(e),
        };
        if chain_id != self.config.chain_id {
            return Err(DispatchError::Module(Error::InvalidChainId));
        }
        if deadline < self.block_number {
            return Err(DispatchError::Module(Error::DeadlineExpired));
        }
        let current_nonce = self.relayer_nonce(sender);
        if nonce <= current_nonce {
            return Err(DispatchError::Module(Error::InvalidNonce));
        }
        self.relayer_nonces.insert(sender, nonce);

        let remittance_id = derive_remittance_id(
            sender,
            recipient,
            &amount,
            &asset_id,
            &corridor,
            nonce,
            deadline,
            chain_id,
        );
        let record = RemittanceRecord {
            sender,
            recipient,
            asset_id: copy_bytes(&asset_id),
            amount: copy_bytes(&amount),
            corridor: copy_bytes(&corridor),
            nonce,
            deadline,
            chain_id,
        };
        self.remittances.insert(remittance_id, record);
        self.deposit_event(
            Event::RemittanceSent(remittance_id, sender, recipient, amount, asset_id, corridor),
        );
        Ok(remittance_id)
    }

    /// Announces that `agent` asks to cash out the remittance `remittance_id`
    /// before block `timeout_block`. Succeeds, emitting `CashOutRequested`,
    /// exactly when the call is signed and the remittance is stored; changes
    /// nothing else.
    pub fn request_cash_out(
        &mut self,
        origin: Origin,
        remittance_id: RemittanceId,
        agent: AccountId,
        timeout_block: BlockNumber,
    ) -> (r: Result<(), DispatchError>)
        ensures
            (r, final(self)@) == notify_outcome(
                old(self)@,
                origin,
                remittance_id@,
                EventModel::CashOutRequested(remittance_id@, agent, timeout_block),
            ),
    {
        let _who = match ensure_signed(origin) {
            Ok(who) => who,
            Err(e) => return Err(e),
        };
        if !self.remittances.contains_key(&remittance_id) {
            return Err(DispatchError::Module(Error::RemittanceNotFound));
        }
        self.deposit_event(Event::CashOutRequested(remittance_id, agent, timeout_block));
        Ok(())
    }

    /// Announces that `agent` completed the cash-out of `remittance_id`.
    /// Succeeds, emitting `CashOutCompleted`, exactly when the call is signed
    /// and the remittance is stored; changes nothing else.
    pub fn complete_cash_out(
        &mut self,
        origin: Origin,
        remittance_id: RemittanceId,
        agent: AccountId,
    ) -> (r: Result<(), DispatchError>)
        ensures
            (r, final(self)@) == notify_outcome(
                old(self)@,
                origin,
                remittance_id@,
                EventModel::CashOutCompleted(remittance_id@, agent),
            ),
    {
        let _who = match ensure_signed(origin) {
            Ok(who) => who,
            Err(e) => return Err(e),
        };
        if !self.remittances.contains_key(&remittance_id) {
            return Err(DispatchError::Module(Error::RemittanceNotFound));
        }
        self.deposit_event(Event::CashOutCompleted(remittance_id, agent));
        Ok(())
    }

    /// Opens a dispute of kind `dispute_type` against `remittance_id`, with
    /// a reference to its evidence. Succeeds, emitting `DisputeOpened`,
    /// exactly when the call is signed and the remittance is stored, whatever
    /// was announced about it before; changes nothing else.
    pub fn open_dispute(
        &mut self,
        origin: Origin,
        remittance_id: RemittanceId,
        opened_by: AccountId,
        dispute_type: Vec<u8>,
        evidence_hash: Vec<u8>,
    ) -> (r: Result<(), DispatchError>)
        requires
            dispute_type@.len() <= old(self)@.config.max_dispute_type_len,
            evidence_hash@.len() <= old(self)@.config.max_evidence_hash_len,
        ensures
            (r, final(self)@) == notify_outcome(
                old(self)@,
                origin,
                remittance_id@,
                EventModel::DisputeOpened(remittance_id@, opened_by, dispute_type@, evidence_hash@),
            ),
    {
        let _who = match ensure_signed(origin) {
            Ok(who) => who,
            Err(e) => return Err(e),
        };
        if !self.remittances.contains_key(&remittance_id) {
            return Err(DispatchError::Module(Error::RemittanceNotFound));
        }
        self.deposit_event(
            Event::DisputeOpened(remittance_id, opened_by, dispute_type, evidence_hash),
        );
        Ok(())
    }
}

} // verus!
