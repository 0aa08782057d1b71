//! The at-most-once event store: each event kind is recorded exactly
//! once per swap, a second write fails hard, and nothing is ever
//! created implicitly.

use comit::actions::SwapCommunication;
use comit::asset::{Erc20, Erc20Quantity};
use comit::database::{Database, DatabaseError, StoredEvent, SwapRecord};
use comit::herc20::{Deployed, Funded, Redeemed, Refunded};
use comit::secret::Secret;
use comit::types::{EthAddress, EthHash, SwapId};
use comit::Role;

fn fresh_db_with(swap_id: SwapId) -> Database {
    let mut db = Database::new();
    let record = SwapRecord::new(swap_id, Role::Alice, SwapCommunication::Proposed);
    db.insert_swap(record).unwrap();
    db
}

#[test]
fn save_and_load_herc20_deployed() {
    let swap_id = SwapId::new(7);
    let mut db = fresh_db_with(swap_id);
    let transaction = EthHash::from_bytes([0xaa; 32]);
    let location = EthAddress::from_bytes([0xbb; 20]);

    let event = Deployed {
        transaction,
        location,
    };
    db.save(StoredEvent::Herc20Deployed(event), swap_id).unwrap();

    let stored_event: Deployed = db
        .load_herc20_deployed(swap_id)
        .expect("No error loading")
        .expect("found the event");

    assert_eq!(stored_event.transaction, transaction);
    assert_eq!(stored_event.location, location);
}

#[test]
fn save_and_load_herc20_funded() {
    let swap_id = SwapId::new(8);
    let mut db = fresh_db_with(swap_id);
    let transaction = EthHash::from_bytes([0xac; 32]);

    let event = Funded {
        transaction,
        asset: Erc20::new(EthAddress::from_bytes([0x11; 20]), Erc20Quantity::from_wei(5)),
    };
    db.save(StoredEvent::Herc20Funded(event), swap_id).unwrap();

    let stored_event = db
        .load_herc20_funded(swap_id)
        .expect("No error loading")
        .expect("found the event");

    assert_eq!(stored_event.transaction, transaction);
}

#[test]
fn save_and_load_herc20_redeemed() {
    let swap_id = SwapId::new(9);
    let mut db = fresh_db_with(swap_id);
    let transaction = EthHash::from_bytes([0xad; 32]);
    let secret = Secret::from_vec(&b"are those thirty-two bytes? Hum.".to_vec()).unwrap();

    let event = Redeemed {
        transaction,
        secret,
    };
    db.save(StoredEvent::Herc20Redeemed(event), swap_id).unwrap();

    let stored_event: Redeemed = db
        .load_herc20_redeemed(swap_id)
        .expect("No error loading")
        .expect("found the event");

    assert_eq!(stored_event.transaction, transaction);
    assert_eq!(stored_event.secret, secret);
}

#[test]
fn save_and_load_herc20_refunded() {
    let swap_id = SwapId::new(10);
    let mut db = fresh_db_with(swap_id);
    let transaction = EthHash::from_bytes([0xae; 32]);

    let event = Refunded { transaction };
    db.save(StoredEvent::Herc20Refunded(event), swap_id).unwrap();

    let stored_event: Refunded = db
        .load_herc20_refunded(swap_id)
        .expect("No error loading")
        .expect("found the event");

    assert_eq!(stored_event.transaction, transaction);
}

#[test]
fn saving_an_event_twice_fails_and_keeps_the_first() {
    let swap_id = SwapId::new(11);
    let mut db = fresh_db_with(swap_id);
    let first = Funded {
        transaction: EthHash::from_bytes([0x01; 32]),
        asset: Erc20::new(EthAddress::from_bytes([0x11; 20]), Erc20Quantity::from_wei(5)),
    };
    let second = Funded {
        transaction: EthHash::from_bytes([0x02; 32]),
        asset: Erc20::new(EthAddress::from_bytes([0x11; 20]), Erc20Quantity::from_wei(5)),
    };

    assert!(db.save(StoredEvent::Herc20Funded(first), swap_id).is_ok());
    // A second watcher racing on the same leg: its submission fails
    // and the first result stands.
    assert_eq!(
        db.save(StoredEvent::Herc20Funded(second), swap_id),
        Err(DatabaseError::AlreadyRecorded)
    );

    let stored = db
        .load_herc20_funded(swap_id)
        .expect("No error loading")
        .expect("found the event");
    assert_eq!(stored.transaction, first.transaction);
}

#[test]
fn different_event_kinds_share_a_record_without_conflict() {
    let swap_id = SwapId::new(12);
    let mut db = fresh_db_with(swap_id);

    let deployed = Deployed {
        transaction: EthHash::from_bytes([0x03; 32]),
        location: EthAddress::from_bytes([0x04; 20]),
    };
    let funded = Funded {
        transaction: EthHash::from_bytes([0x05; 32]),
        asset: Erc20::new(EthAddress::from_bytes([0x11; 20]), Erc20Quantity::from_wei(5)),
    };

    assert!(db.save(StoredEvent::Herc20Deployed(deployed), swap_id).is_ok());
    assert!(db.save(StoredEvent::Herc20Funded(funded), swap_id).is_ok());
    assert!(db.load_herc20_deployed(swap_id).unwrap().is_some());
    assert!(db.load_herc20_funded(swap_id).unwrap().is_some());
    assert!(db.load_herc20_redeemed(swap_id).unwrap().is_none());
}

#[test]
fn unknown_swap_is_surfaced_not_created() {
    let mut db = Database::new();
    let event = Refunded {
        transaction: EthHash::from_bytes([0x06; 32]),
    };
    assert_eq!(
        db.save(StoredEvent::Herc20Refunded(event), SwapId::new(99)),
        Err(DatabaseError::UnknownSwap)
    );
    assert!(db.load(SwapId::new(99)).is_err());
}

#[test]
fn a_swap_record_is_created_exactly_once() {
    let swap_id = SwapId::new(13);
    let mut db = fresh_db_with(swap_id);
    let record = SwapRecord::new(swap_id, Role::Bob, SwapCommunication::Proposed);
    assert_eq!(db.insert_swap(record), Err(DatabaseError::SwapAlreadyExists));
}

#[test]
fn record_is_the_ingestion_point_with_the_same_contract() {
    let swap_id = SwapId::new(14);
    let mut db = fresh_db_with(swap_id);
    let event = Refunded {
        transaction: EthHash::from_bytes([0x07; 32]),
    };
    assert!(db.record(StoredEvent::Herc20Refunded(event), swap_id).is_ok());
    assert_eq!(
        db.record(StoredEvent::Herc20Refunded(event), swap_id),
        Err(DatabaseError::AlreadyRecorded)
    );
}
