use emitter::{Address, EmitterError, PaymentEvent, PaymentEventEmitter};

fn addr(tag: &str) -> Address {
    Address::new(tag.as_bytes().to_vec())
}

fn bytes(s: &str) -> Vec<u8> {
    s.as_bytes().to_vec()
}

fn initialized(owner: &Address) -> PaymentEventEmitter {
    let mut c = PaymentEventEmitter::new();
    c.init(owner.clone()).unwrap();
    c
}

fn emit(c: &mut PaymentEventEmitter, caller: &Address, amount: i128, now: u64) -> Result<u64, EmitterError> {
    c.emit_payment(caller, bytes("src"), addr("payer"), addr("payee"), amount, bytes("tx"), now)
}

#[test]
fn emitted_event_reads_back_with_all_fields() {
    let owner = addr("owner");
    let mut c = initialized(&owner);
    let id = c
        .emit_payment(&owner, bytes("OphirPay"), addr("a"), addr("b"), -7, bytes("hash"), 42)
        .unwrap();
    assert_eq!(id, 1);
    let e = c.get_event(id).unwrap();
    assert_eq!(
        e,
        PaymentEvent {
            id: 1,
            source: bytes("OphirPay"),
            payer: addr("a"),
            payee: addr("b"),
            amount: -7,
            tx_hash: bytes("hash"),
            timestamp: 42,
        }
    );
}

#[test]
fn emission_keeps_earlier_events_and_numbers_consecutively() {
    let owner = addr("owner");
    let mut c = initialized(&owner);
    assert_eq!(emit(&mut c, &owner, 10, 1), Ok(1));
    assert_eq!(emit(&mut c, &owner, 20, 2), Ok(2));
    assert_eq!(emit(&mut c, &owner, 30, 3), Ok(3));
    assert_eq!(c.get_event(1).unwrap().amount, 10);
    assert_eq!(c.get_event(2).unwrap().amount, 20);
    assert_eq!(c.get_event(3).unwrap().timestamp, 3);
    assert_eq!(c.get_event_count(), 3);
    assert_eq!(c.get_event(0), Err(EmitterError::EventNotFound));
    assert_eq!(c.get_event(4), Err(EmitterError::EventNotFound));
}

#[test]
fn failed_calls_leave_state_unchanged() {
    let owner = addr("owner");
    let rando = addr("rando");
    let mut c = initialized(&owner);
    emit(&mut c, &owner, 1, 1).unwrap();
    assert_eq!(c.pause(&rando), Err(EmitterError::Unauthorized));
    assert!(!c.is_paused());
    assert_eq!(c.set_allowed_source(&rando, Some(rando.clone())), Err(EmitterError::Unauthorized));
    assert_eq!(c.get_allowed_source(), None);
    assert_eq!(c.transfer_ownership(&rando, rando.clone(), 5), Err(EmitterError::Unauthorized));
    assert_eq!(c.get_pending_owner(), None);
    assert_eq!(c.propose_upgrade(&rando, [1u8; 32], 5), Err(EmitterError::Unauthorized));
    assert_eq!(c.get_pending_upgrade(), None);
    assert_eq!(c.init(rando.clone()), Err(EmitterError::AlreadyInitialized));
    assert_eq!(c.get_owner(), Ok(owner.clone()));
    assert_eq!(c.get_event_count(), 1);
}

#[test]
fn owner_only_calls_before_init_report_not_initialized() {
    let mut c = PaymentEventEmitter::new();
    let a = addr("a");
    assert_eq!(c.get_owner(), Err(EmitterError::NotInitialized));
    assert_eq!(c.pause(&a), Err(EmitterError::NotInitialized));
    assert_eq!(c.unpause(&a), Err(EmitterError::NotInitialized));
    assert_eq!(c.set_allowed_source(&a, None), Err(EmitterError::NotInitialized));
    assert_eq!(c.cancel_upgrade(&a), Err(EmitterError::NotInitialized));
    assert_eq!(c.transfer_ownership(&a, a.clone(), 0), Err(EmitterError::NotInitialized));
    assert_eq!(c.propose_upgrade(&a, [0u8; 32], 0), Err(EmitterError::NotInitialized));
    assert_eq!(c.maintain_storage_bump(&a, 1, 1), Err(EmitterError::NotInitialized));
}

#[test]
fn emission_without_allow_list_is_open_even_before_init() {
    let mut c = PaymentEventEmitter::new();
    let anyone = addr("anyone");
    assert_eq!(emit(&mut c, &anyone, 5, 0), Ok(1));
    assert_eq!(c.get_event_count(), 1);
}

#[test]
fn init_after_emission_resets_count_and_overwrites_from_id_one() {
    let owner = addr("owner");
    let mut c = PaymentEventEmitter::new();
    assert_eq!(emit(&mut c, &owner, 1, 0), Ok(1));
    assert_eq!(emit(&mut c, &owner, 2, 0), Ok(2));
    assert_eq!(c.init(owner.clone()), Ok(0));
    assert_eq!(c.get_event_count(), 0);
    assert_eq!(emit(&mut c, &owner, 3, 0), Ok(1));
    assert_eq!(c.get_event(1).unwrap().amount, 3);
    assert_eq!(c.get_event(2).unwrap().amount, 2);
    assert_eq!(c.maintain_storage_bump(&owner, 1, 5), Ok(2));
}

#[test]
fn allow_list_rejects_others_and_admits_source_and_owner() {
    let owner = addr("owner");
    let allowed = addr("allowed");
    let other = addr("other");
    let mut c = initialized(&owner);
    c.set_allowed_source(&owner, Some(allowed.clone())).unwrap();
    assert_eq!(emit(&mut c, &other, 1, 0), Err(EmitterError::Unauthorized));
    assert_eq!(emit(&mut c, &allowed, 1, 0), Ok(1));
    assert_eq!(emit(&mut c, &owner, 1, 0), Ok(2));
    c.set_allowed_source(&owner, None).unwrap();
    assert_eq!(emit(&mut c, &other, 1, 0), Ok(3));
}

#[test]
fn pause_blocks_everyone_and_unpause_restores() {
    let owner = addr("owner");
    let other = addr("other");
    let mut c = initialized(&owner);
    c.pause(&owner).unwrap();
    assert!(c.is_paused());
    assert_eq!(emit(&mut c, &owner, 1, 0), Err(EmitterError::ContractPaused));
    assert_eq!(emit(&mut c, &other, 1, 0), Err(EmitterError::ContractPaused));
    assert_eq!(c.get_event_count(), 0);
    c.unpause(&owner).unwrap();
    assert!(!c.is_paused());
    assert_eq!(emit(&mut c, &other, 1, 0), Ok(1));
}

#[test]
fn allow_list_is_checked_before_pause() {
    let owner = addr("owner");
    let other = addr("other");
    let mut c = initialized(&owner);
    c.set_allowed_source(&owner, Some(addr("allowed"))).unwrap();
    c.pause(&owner).unwrap();
    assert_eq!(emit(&mut c, &other, 1, 0), Err(EmitterError::Unauthorized));
    assert_eq!(emit(&mut c, &owner, 1, 0), Err(EmitterError::ContractPaused));
}

#[test]
fn ownership_needs_timelock_and_the_proposed_account() {
    let owner = addr("owner");
    let next = addr("next");
    let other = addr("other");
    let mut c = initialized(&owner);
    assert_eq!(c.accept_ownership(&next, 0), Err(EmitterError::UpgradeNotProposed));
    c.transfer_ownership(&owner, next.clone(), 1000).unwrap();
    assert_eq!(c.get_pending_owner(), Some((next.clone(), 1000)));
    assert_eq!(c.accept_ownership(&other, 1_000_000), Err(EmitterError::Unauthorized));
    assert_eq!(c.accept_ownership(&next, 1000 + 86399), Err(EmitterError::UpgradeTimelockActive));
    // earlier than the proposal: the elapsed time saturates at zero
    assert_eq!(c.accept_ownership(&next, 10), Err(EmitterError::UpgradeTimelockActive));
    assert_eq!(c.get_owner(), Ok(owner.clone()));
    assert_eq!(c.accept_ownership(&next, 1000 + 86400), Ok(()));
    assert_eq!(c.get_owner(), Ok(next.clone()));
    assert_eq!(c.get_pending_owner(), None);
    assert_eq!(c.pause(&owner), Err(EmitterError::Unauthorized));
    assert_eq!(c.pause(&next), Ok(()));
}

#[test]
fn upgrade_waits_for_timelock_and_runs_once() {
    let owner = addr("owner");
    let mut c = initialized(&owner);
    assert_eq!(c.execute_upgrade(0), Err(EmitterError::UpgradeNotProposed));
    let hash = [7u8; 32];
    c.propose_upgrade(&owner, hash, 500).unwrap();
    assert_eq!(c.get_pending_upgrade(), Some((hash, 500 + 86400)));
    assert_eq!(c.execute_upgrade(500 + 86399), Err(EmitterError::UpgradeTimelockActive));
    assert_eq!(c.execute_upgrade(500 + 86400), Ok(hash));
    assert_eq!(c.execute_upgrade(500 + 86400), Err(EmitterError::UpgradeNotProposed));
}

#[test]
fn cancelled_upgrade_cannot_run() {
    let owner = addr("owner");
    let mut c = initialized(&owner);
    c.propose_upgrade(&owner, [9u8; 32], 0).unwrap();
    c.cancel_upgrade(&owner).unwrap();
    assert_eq!(c.get_pending_upgrade(), None);
    assert_eq!(c.execute_upgrade(1_000_000), Err(EmitterError::UpgradeNotProposed));
}

#[test]
fn maintenance_counts_only_stored_ids_and_caps_batch() {
    let owner = addr("owner");
    let mut c = initialized(&owner);
    for i in 0..60 {
        emit(&mut c, &owner, i, 0).unwrap();
    }
    assert_eq!(c.maintain_storage_bump(&owner, 1, 100), Ok(50));
    assert_eq!(c.maintain_storage_bump(&owner, 0, 5), Ok(4));
    assert_eq!(c.maintain_storage_bump(&owner, 58, 10), Ok(3));
    assert_eq!(c.maintain_storage_bump(&owner, 61, 10), Ok(0));
    assert_eq!(c.maintain_storage_bump(&owner, 1, 0), Ok(0));
    assert_eq!(c.bump_targets(58, 10), vec![58, 59, 60]);
    assert_eq!(c.bump_targets(0, 3), vec![1, 2]);
}

#[test]
fn maintenance_at_the_top_of_the_id_range_saturates() {
    let owner = addr("owner");
    let c = initialized(&owner);
    assert_eq!(c.maintain_storage_bump(&owner, u64::MAX, 50), Ok(0));
    assert_eq!(c.bump_targets(u64::MAX - 1, 50), Vec::<u64>::new());
}

#[test]
fn stored_events_carry_their_ids() {
    let owner = addr("owner");
    let mut c = initialized(&owner);
    for i in 0..4 {
        emit(&mut c, &owner, i, 0).unwrap();
    }
    for id in 1..=4u64 {
        assert_eq!(c.get_event(id).unwrap().id, id);
    }
}

#[test]
fn from_parts_accepts_consistent_storage_only() {
    let ev = |id: u64| PaymentEvent {
        id,
        source: bytes("s"),
        payer: addr("p"),
        payee: addr("q"),
        amount: 1,
        tx_hash: bytes("t"),
        timestamp: 0,
    };
    let ok = PaymentEventEmitter::from_parts(
        Some(addr("owner")),
        1,
        vec![ev(1), ev(2)],
        None,
        true,
        Some(([3u8; 32], 10)),
        Some((addr("n"), 4)),
    )
    .unwrap();
    assert_eq!(ok.get_event_count(), 1);
    assert_eq!(ok.get_event(2).unwrap().id, 2);
    assert!(ok.is_paused());
    assert_eq!(ok.get_pending_upgrade(), Some(([3u8; 32], 10)));
    assert_eq!(ok.get_pending_owner(), Some((addr("n"), 4)));
    assert!(PaymentEventEmitter::from_parts(None, 3, vec![ev(1), ev(2)], None, false, None, None).is_none());
    assert!(PaymentEventEmitter::from_parts(None, 0, vec![ev(2)], None, false, None, None).is_none());
    assert!(PaymentEventEmitter::from_parts(None, 0, vec![], None, false, None, None).is_some());
}

#[test]
fn address_equality_is_by_bytes() {
    let a = addr("GABC");
    assert!(a.same_as(&addr("GABC")));
    assert!(!a.same_as(&addr("GABD")));
    assert_eq!(a.as_bytes(), b"GABC");
}

#[test]
fn error_codes_match_the_contract() {
    assert_eq!(EmitterError::NotInitialized.code(), 1);
    assert_eq!(EmitterError::AlreadyInitialized.code(), 2);
    assert_eq!(EmitterError::EventNotFound.code(), 3);
    assert_eq!(EmitterError::Unauthorized.code(), 4);
    assert_eq!(EmitterError::UpgradeNotProposed.code(), 5);
    assert_eq!(EmitterError::UpgradeTimelockActive.code(), 6);
    assert_eq!(EmitterError::ContractPaused.code(), 7);
    assert_eq!(EmitterError::InvalidAmount.code(), 8);
    assert_eq!(EmitterError::DuplicateEvent.code(), 9);
    assert_eq!(EmitterError::MaxEventsReached.code(), 10);
    assert_eq!(EmitterError::ReentrantCall.code(), 11);
    assert_eq!(EmitterError::InvalidTxHash.code(), 12);
    assert_eq!(EmitterError::EmitFailed.code(), 13);
    assert_eq!(EmitterError::CrossContractCallFailed.code(), 14);
}
