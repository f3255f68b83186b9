use remitchain::identifier::derive_remittance_id;
use remitchain::pallet::{ensure_signed, Pallet};
use remitchain::types::{Config, DispatchError, Error, Event, Origin, RemittanceId};

const CHAIN: u64 = 42;
const RELAYER: u64 = 99;
const SENDER: u64 = 10;
const RECIPIENT: u64 = 20;
const AGENT: u64 = 30;
const DISPUTER: u64 = 40;

fn config() -> Config {
    Config {
        max_asset_id_len: 16,
        max_corridor_len: 16,
        max_amount_len: 32,
        max_dispute_type_len: 16,
        max_evidence_hash_len: 32,
        chain_id: CHAIN,
    }
}

fn ledger_at(block: u64) -> Pallet {
    let mut p = Pallet::new(config());
    p.set_block_number(block);
    p
}

fn submit(p: &mut Pallet, sender: u64, nonce: u64, deadline: u64, chain_id: u64) -> Result<RemittanceId, DispatchError> {
    p.send_remittance_gasless(
        Origin::Signed(RELAYER),
        sender,
        vec![0xAB; 64],
        b"USDC".to_vec(),
        RECIPIENT,
        b"100".to_vec(),
        b"US-MX".to_vec(),
        nonce,
        deadline,
        chain_id,
    )
}

const KNOWN_ID: [u8; 32] = [
    89, 220, 120, 194, 99, 114, 194, 59, 125, 3, 242, 63, 153, 244, 155, 111, 229, 233, 191, 75,
    167, 36, 97, 54, 37, 246, 242, 14, 190, 166, 149, 48,
];

#[test]
fn identifier_is_blake2_of_scale_encoding() {
    let id = derive_remittance_id(
        SENDER,
        RECIPIENT,
        &b"100".to_vec(),
        &b"USDC".to_vec(),
        &b"US-MX".to_vec(),
        1,
        110,
        CHAIN,
    );
    assert_eq!(id, KNOWN_ID);
}

#[test]
fn identifier_with_two_byte_length_prefix() {
    let id = derive_remittance_id(1, 2, &vec![0u8; 70], &vec![], &vec![], 3, 4, 5);
    let expected: [u8; 32] = [
        53, 53, 203, 88, 83, 159, 121, 17, 137, 40, 170, 214, 87, 188, 165, 136, 90, 84, 130, 120,
        40, 31, 235, 249, 29, 245, 25, 141, 77, 100, 162, 92,
    ];
    assert_eq!(id, expected);
}

#[test]
fn identifier_is_deterministic_and_field_sensitive() {
    let a = derive_remittance_id(1, 2, &vec![5], &vec![6], &vec![7], 3, 4, 5);
    let b = derive_remittance_id(1, 2, &vec![5], &vec![6], &vec![7], 3, 4, 5);
    assert_eq!(a, b);
    let variants = [
        derive_remittance_id(9, 2, &vec![5], &vec![6], &vec![7], 3, 4, 5),
        derive_remittance_id(1, 9, &vec![5], &vec![6], &vec![7], 3, 4, 5),
        derive_remittance_id(1, 2, &vec![9], &vec![6], &vec![7], 3, 4, 5),
        derive_remittance_id(1, 2, &vec![5], &vec![9], &vec![7], 3, 4, 5),
        derive_remittance_id(1, 2, &vec![5], &vec![6], &vec![9], 3, 4, 5),
        derive_remittance_id(1, 2, &vec![5], &vec![6], &vec![7], 9, 4, 5),
        derive_remittance_id(1, 2, &vec![5], &vec![6], &vec![7], 3, 9, 5),
        derive_remittance_id(1, 2, &vec![5], &vec![6], &vec![7], 3, 4, 9),
    ];
    for v in variants.iter() {
        assert_ne!(*v, a);
    }
}

#[test]
fn submission_stores_record_and_emits_event() {
    let mut p = ledger_at(100);
    let id = submit(&mut p, SENDER, 1, 110, CHAIN).unwrap();
    assert_eq!(id, KNOWN_ID);
    assert_eq!(p.relayer_nonce(SENDER), 1);
    let rec = p.remittance(&id).unwrap();
    assert_eq!(rec.sender, SENDER);
    assert_eq!(rec.recipient, RECIPIENT);
    assert_eq!(rec.asset_id, b"USDC".to_vec());
    assert_eq!(rec.amount, b"100".to_vec());
    assert_eq!(rec.corridor, b"US-MX".to_vec());
    assert_eq!(rec.nonce, 1);
    assert_eq!(rec.deadline, 110);
    assert_eq!(rec.chain_id, CHAIN);
    assert_eq!(p.events().len(), 1);
    match &p.events()[0] {
        Event::RemittanceSent(eid, s, r, amount, asset, corridor) => {
            assert_eq!(*eid, id);
            assert_eq!(*s, SENDER);
            assert_eq!(*r, RECIPIENT);
            assert_eq!(*amount, b"100".to_vec());
            assert_eq!(*asset, b"USDC".to_vec());
            assert_eq!(*corridor, b"US-MX".to_vec());
        }
        other => panic!("unexpected event {:?}", other),
    }
}

#[test]
fn end_to_end_scenario() {
    let clock = 100;
    let mut p = ledger_at(clock);
    let id1 = submit(&mut p, SENDER, 1, clock + 10, CHAIN).unwrap();
    assert_eq!(p.relayer_nonce(SENDER), 1);
    assert_eq!(
        submit(&mut p, SENDER, 1, clock + 10, CHAIN),
        Err(DispatchError::Module(Error::InvalidNonce))
    );
    let id2 = submit(&mut p, SENDER, 2, clock + 10, CHAIN).unwrap();
    assert_ne!(id1, id2);
    assert_eq!(p.relayer_nonce(SENDER), 2);
    assert_eq!(p.request_cash_out(Origin::Signed(AGENT), id1, AGENT, clock + 5), Ok(()));
    assert_eq!(p.complete_cash_out(Origin::Signed(AGENT), id1, AGENT), Ok(()));
    assert_eq!(
        p.open_dispute(Origin::Signed(DISPUTER), id1, DISPUTER, b"fraud".to_vec(), vec![0x11; 32]),
        Ok(())
    );
    let unknown: RemittanceId = [7u8; 32];
    assert_eq!(
        p.request_cash_out(Origin::Signed(AGENT), unknown, AGENT, clock + 5),
        Err(DispatchError::Module(Error::RemittanceNotFound))
    );
    assert_eq!(p.events().len(), 5);
    assert!(matches!(p.events()[2], Event::CashOutRequested(i, AGENT, 105) if i == id1));
    assert!(matches!(p.events()[3], Event::CashOutCompleted(i, AGENT) if i == id1));
    match &p.events()[4] {
        Event::DisputeOpened(i, by, kind, evidence) => {
            assert_eq!(*i, id1);
            assert_eq!(*by, DISPUTER);
            assert_eq!(*kind, b"fraud".to_vec());
            assert_eq!(*evidence, vec![0x11; 32]);
        }
        other => panic!("unexpected event {:?}", other),
    }
}

#[test]
fn deadline_equal_to_clock_is_accepted() {
    let mut p = ledger_at(50);
    assert!(submit(&mut p, SENDER, 1, 50, CHAIN).is_ok());
}

#[test]
fn deadline_one_before_clock_is_rejected() {
    let mut p = ledger_at(50);
    assert_eq!(submit(&mut p, SENDER, 1, 49, CHAIN), Err(DispatchError::Module(Error::DeadlineExpired)));
    assert_eq!(p.relayer_nonce(SENDER), 0);
    assert!(p.events().is_empty());
}

#[test]
fn wrong_chain_is_rejected_before_other_checks() {
    let mut p = ledger_at(50);
    submit(&mut p, SENDER, 5, 60, CHAIN).unwrap();
    // expired deadline and stale nonce as well: the chain check comes first
    assert_eq!(submit(&mut p, SENDER, 1, 10, CHAIN + 1), Err(DispatchError::Module(Error::InvalidChainId)));
    assert_eq!(submit(&mut p, SENDER, 6, 60, 0), Err(DispatchError::Module(Error::InvalidChainId)));
    assert_eq!(p.relayer_nonce(SENDER), 5);
    assert_eq!(p.events().len(), 1);
}

#[test]
fn stale_nonces_are_rejected_whatever_the_fields() {
    let mut p = ledger_at(0);
    let first = submit(&mut p, SENDER, 7, 10, CHAIN).unwrap();
    for nonce in [0u64, 1, 6, 7] {
        let r = p.send_remittance_gasless(
            Origin::Signed(RELAYER + 1),
            SENDER,
            vec![],
            b"EUR".to_vec(),
            RECIPIENT + 1,
            b"5".to_vec(),
            b"DE-PH".to_vec(),
            nonce,
            1000,
            CHAIN,
        );
        assert_eq!(r, Err(DispatchError::Module(Error::InvalidNonce)));
    }
    assert_eq!(p.relayer_nonce(SENDER), 7);
    assert!(p.remittance(&first).is_some());
    assert_eq!(p.events().len(), 1);
}

#[test]
fn nonces_are_per_sender_and_may_skip() {
    let mut p = ledger_at(0);
    submit(&mut p, SENDER, 10, 10, CHAIN).unwrap();
    assert_eq!(p.relayer_nonce(SENDER), 10);
    assert_eq!(p.relayer_nonce(SENDER + 1), 0);
    submit(&mut p, SENDER + 1, 1, 10, CHAIN).unwrap();
    assert_eq!(p.relayer_nonce(SENDER + 1), 1);
    assert_eq!(p.relayer_nonce(SENDER), 10);
    submit(&mut p, SENDER, u64::MAX, 10, CHAIN).unwrap();
    assert_eq!(p.relayer_nonce(SENDER), u64::MAX);
    assert_eq!(submit(&mut p, SENDER, u64::MAX, 10, CHAIN), Err(DispatchError::Module(Error::InvalidNonce)));
}

#[test]
fn unsigned_calls_are_rejected() {
    let mut p = ledger_at(0);
    assert_eq!(ensure_signed(Origin::Signed(3)), Ok(3));
    assert_eq!(ensure_signed(Origin::Root), Err(DispatchError::BadOrigin));
    let r = p.send_remittance_gasless(Origin::Unsigned, SENDER, vec![], vec![], RECIPIENT, vec![], vec![], 1, 5, CHAIN);
    assert_eq!(r, Err(DispatchError::BadOrigin));
    let id = submit(&mut p, SENDER, 1, 5, CHAIN).unwrap();
    assert_eq!(p.request_cash_out(Origin::Root, id, AGENT, 3), Err(DispatchError::BadOrigin));
    assert_eq!(p.complete_cash_out(Origin::Unsigned, id, AGENT), Err(DispatchError::BadOrigin));
    assert_eq!(p.open_dispute(Origin::Root, id, AGENT, vec![], vec![]), Err(DispatchError::BadOrigin));
    assert_eq!(p.events().len(), 1);
}

#[test]
fn notifications_need_a_stored_remittance() {
    let mut p = ledger_at(0);
    let missing: RemittanceId = [0u8; 32];
    let nf = Err(DispatchError::Module(Error::RemittanceNotFound));
    assert_eq!(p.request_cash_out(Origin::Signed(AGENT), missing, AGENT, 3), nf);
    assert_eq!(p.complete_cash_out(Origin::Signed(AGENT), missing, AGENT), nf);
    assert_eq!(p.open_dispute(Origin::Signed(AGENT), missing, AGENT, b"x".to_vec(), vec![]), nf);
    assert!(p.events().is_empty());
    assert!(p.remittance(&missing).is_none());
}

#[test]
fn notifications_repeat_and_leave_state_alone() {
    let mut p = ledger_at(0);
    let id = submit(&mut p, SENDER, 1, 5, CHAIN).unwrap();
    assert_eq!(p.complete_cash_out(Origin::Signed(AGENT), id, AGENT), Ok(()));
    assert_eq!(p.complete_cash_out(Origin::Signed(AGENT), id, AGENT), Ok(()));
    assert_eq!(p.request_cash_out(Origin::Signed(AGENT), id, AGENT + 1, 9), Ok(()));
    assert_eq!(p.events().len(), 4);
    assert_eq!(p.relayer_nonce(SENDER), 1);
    assert_eq!(p.remittance(&id).unwrap().nonce, 1);
    assert_eq!(p.config(), config());
    assert_eq!(p.block_number(), 0);
}
