//! The state machine and the action derivation engine, run through
//! the protocol's scenarios.

use comit::actions::{Action, SwapCommunication, SwapParams};
use comit::asset;
use comit::bitcoin::PublicKey;
use comit::halbit::{Chain, Finalized, LightningIdentity, State as HalbitState, INVOICE_EXPIRY_SECS};
use comit::hbit;
use comit::herc20;
use comit::http::Position;
use comit::ledger;
use comit::orders::{has_executable_expiries, BtcDaiOrder, SwapProtocol};
use comit::queries::{BitcoinBlockQuery, QueryMatchResult};
use comit::secret::{Secret, SecretHash};
use comit::state::{ApplyError, ApplyOutcome, LedgerEvent, LedgerState};
use comit::facade::{Facade, FacadeError};
use comit::swap::{NegotiationError, Swap};
use comit::types::{ChainId, EthAddress, EthHash, OutPoint, RelativeTime, SwapId, Timestamp, Txid};
use comit::{Role, Side};

fn secret() -> Secret {
    Secret::from_bytes([0x42; 32])
}

fn params() -> SwapParams {
    let secret_hash = SecretHash::new(&secret());
    SwapParams {
        alpha: hbit::Params {
            network: ledger::Bitcoin::Regtest,
            asset: asset::Bitcoin::from_sat(100_000),
            redeem_identity: PublicKey::from_bytes([0x02; 33]),
            refund_identity: PublicKey::from_bytes([0x03; 33]),
            expiry: Timestamp::new(2_000_000),
            secret_hash,
        },
        beta: herc20::Params {
            asset: asset::Erc20::new(
                EthAddress::from_bytes([0x20; 20]),
                asset::Erc20Quantity::from_wei(9_001),
            ),
            redeem_identity: EthAddress::from_bytes([0x21; 20]),
            refund_identity: EthAddress::from_bytes([0x22; 20]),
            expiry: Timestamp::new(1_000_000),
            secret_hash,
            chain_id: ChainId::geth_dev(),
        },
    }
}

fn accepted_swap(role: Role) -> Swap {
    let mut swap = Swap::new(SwapId::new(1), role);
    swap.accept(params()).unwrap();
    swap
}

fn alpha_funded() -> LedgerEvent<OutPoint, Txid> {
    LedgerEvent::Funded {
        htlc_location: OutPoint::new(Txid::from_bytes([0x0a; 32]), 0),
        transaction: Txid::from_bytes([0x0a; 32]),
        correctly: true,
    }
}

fn beta_deployed() -> LedgerEvent<EthAddress, EthHash> {
    LedgerEvent::Deployed {
        htlc_location: EthAddress::from_bytes([0x30; 20]),
        transaction: EthHash::from_bytes([0x31; 32]),
    }
}

fn beta_funded() -> LedgerEvent<EthAddress, EthHash> {
    LedgerEvent::Funded {
        htlc_location: EthAddress::from_bytes([0x30; 20]),
        transaction: EthHash::from_bytes([0x32; 32]),
        correctly: true,
    }
}

#[test]
fn bob_proposed_swap_offers_accept_and_decline() {
    let swap = Swap::new(SwapId::new(1), Role::Bob);
    let actions = swap.next_actions(None);
    assert_eq!(actions.len(), 2);
    assert!(matches!(actions[0], Action::Accept));
    assert!(matches!(actions[1], Action::Decline));
}

#[test]
fn rejected_swap_offers_nothing() {
    let mut swap = Swap::new(SwapId::new(1), Role::Bob);
    swap.reject().unwrap();
    assert!(swap.next_actions(None).is_empty());
}

#[test]
fn negotiation_settles_exactly_once() {
    let mut swap = Swap::new(SwapId::new(1), Role::Bob);
    swap.accept(params()).unwrap();
    assert_eq!(swap.accept(params()), Err(NegotiationError::AlreadySettled));
    assert_eq!(swap.reject(), Err(NegotiationError::AlreadySettled));
}

#[test]
fn mismatched_secret_hashes_are_refused() {
    let mut swap = Swap::new(SwapId::new(1), Role::Bob);
    let mut p = params();
    p.beta.secret_hash = SecretHash::from_bytes([0x77; 32]);
    assert_eq!(
        swap.accept(p),
        Err(NegotiationError::MismatchedSecretHashes)
    );
    assert!(matches!(
        swap.current_communication(),
        SwapCommunication::Proposed
    ));
}

#[test]
fn bob_erc20_side_walks_deploy_fund_redeem() {
    // Alpha funded, beta not deployed, no secret: deploy beta.
    let mut swap = accepted_swap(Role::Bob);
    swap.apply_alpha(alpha_funded()).unwrap();
    let actions = swap.next_actions(None);
    assert_eq!(actions.len(), 1);
    assert!(matches!(actions[0], Action::Herc20Deploy(_)));

    // Beta deployed, same alpha: fund beta.
    swap.apply_beta(beta_deployed()).unwrap();
    let actions = swap.next_actions(None);
    assert_eq!(actions.len(), 1);
    match &actions[0] {
        Action::Herc20Fund(_, deployed) => {
            assert_eq!(deployed.location, EthAddress::from_bytes([0x30; 20]));
            assert_eq!(deployed.transaction, EthHash::from_bytes([0x31; 32]));
        }
        other => panic!("expected a fund action, got {:?}", other),
    }

    // Beta funded and the secret known: redeem beta, and nothing else.
    swap.apply_beta(beta_funded()).unwrap();
    let actions = swap.next_actions(Some(secret()));
    assert_eq!(actions.len(), 1);
    match &actions[0] {
        Action::Herc20Redeem(_, deployed, s) => {
            assert_eq!(deployed.location, EthAddress::from_bytes([0x30; 20]));
            assert_eq!(*s, secret());
        }
        other => panic!("expected a redeem action, got {:?}", other),
    }
}

#[test]
fn alice_with_both_legs_funded_races_redeem_against_refund() {
    let mut swap = accepted_swap(Role::Alice);
    swap.apply_alpha(alpha_funded()).unwrap();
    swap.apply_beta(beta_deployed()).unwrap();
    swap.apply_beta(beta_funded()).unwrap();

    // Both legs funded and the secret known: redeeming beta and
    // refunding alpha are offered together, a race by design.
    let actions = swap.next_actions(Some(secret()));
    assert_eq!(actions.len(), 2);
    assert!(matches!(actions[0], Action::Herc20Redeem(..)));
    assert!(matches!(actions[1], Action::HbitRefund(..)));
}

#[test]
fn alice_funds_alpha_upon_acceptance() {
    let swap = accepted_swap(Role::Alice);
    let actions = swap.next_actions(None);
    assert_eq!(actions.len(), 1);
    assert!(matches!(actions[0], Action::HbitFund(_)));
}

#[test]
fn incorrect_funding_never_reads_as_funded_and_forces_refunds() {
    let mut swap = accepted_swap(Role::Alice);
    let wrong_amount = LedgerEvent::Funded {
        htlc_location: OutPoint::new(Txid::from_bytes([0x0b; 32]), 1),
        transaction: Txid::from_bytes([0x0b; 32]),
        correctly: false,
    };
    let outcome = swap.apply_alpha(wrong_amount).unwrap();
    match outcome {
        ApplyOutcome::Advanced(state) => {
            assert!(matches!(state, LedgerState::IncorrectlyFunded { .. }))
        }
        ApplyOutcome::Stale => panic!("a fresh leg cannot be stale"),
    }

    // The derived action set is refund-only, even with the secret.
    let actions = swap.next_actions(Some(secret()));
    assert_eq!(actions.len(), 1);
    assert!(matches!(actions[0], Action::HbitRefund(..)));
}

#[test]
fn duplicate_events_are_rejected_not_merged() {
    let mut swap = accepted_swap(Role::Bob);
    swap.apply_alpha(alpha_funded()).unwrap();
    assert!(matches!(
        swap.apply_alpha(alpha_funded()),
        Err(ApplyError::DuplicateEvent)
    ));
    // A deploy observation arriving after funding is implied already.
    let late_deploy = LedgerEvent::Deployed {
        htlc_location: OutPoint::new(Txid::from_bytes([0x0a; 32]), 0),
        transaction: Txid::from_bytes([0x0a; 32]),
    };
    assert!(matches!(
        swap.apply_alpha(late_deploy),
        Err(ApplyError::DuplicateEvent)
    ));
}

#[test]
fn redeem_with_a_wrong_secret_is_a_protocol_violation() {
    let mut swap = accepted_swap(Role::Bob);
    swap.apply_beta(beta_deployed()).unwrap();
    let bogus = LedgerEvent::Redeemed {
        transaction: EthHash::from_bytes([0x33; 32]),
        secret: Secret::from_bytes([0x43; 32]),
    };
    assert!(matches!(
        swap.apply_beta(bogus),
        Err(ApplyError::ProtocolViolation)
    ));
    // The observation was discarded; the leg still reads deployed.
    match swap.current_ledger_state(Side::Beta) {
        comit::swap::SideState::Beta(state) => {
            assert!(matches!(state, LedgerState::Deployed { .. }))
        }
        _ => panic!("asked for the beta leg"),
    }
}

#[test]
fn terminal_states_ignore_further_observations() {
    let mut swap = accepted_swap(Role::Bob);
    swap.apply_beta(beta_funded()).unwrap();
    let redeem = LedgerEvent::Redeemed {
        transaction: EthHash::from_bytes([0x34; 32]),
        secret: secret(),
    };
    swap.apply_beta(redeem).unwrap();

    // A late refund observation on a redeemed leg is stale, not an
    // error, and moves nothing.
    let late_refund = LedgerEvent::Refunded {
        transaction: EthHash::from_bytes([0x35; 32]),
    };
    assert!(matches!(
        swap.apply_beta(late_refund),
        Ok(ApplyOutcome::Stale)
    ));
    match swap.current_ledger_state(Side::Beta) {
        comit::swap::SideState::Beta(state) => {
            assert!(matches!(state, LedgerState::Redeemed { .. }))
        }
        _ => panic!("asked for the beta leg"),
    }
}

#[test]
fn funding_skips_the_deploy_step_on_ledgers_without_one() {
    let mut swap = accepted_swap(Role::Alice);
    // Bitcoin has no separate deploy: a funded observation on a fresh
    // leg is valid and implies the deployment.
    let outcome = swap.apply_alpha(alpha_funded()).unwrap();
    assert!(matches!(outcome, ApplyOutcome::Advanced(LedgerState::Funded { .. })));
}

#[test]
fn herc20_scan_classifies_funding_by_amount() {
    let p = params().beta;
    let htlc = EthAddress::from_bytes([0x30; 20]);
    let good = herc20::TokenTransfer {
        transaction: EthHash::from_bytes([0x36; 32]),
        token_contract: p.asset.token_contract,
        to: htlc,
        quantity: p.asset.quantity,
    };
    let short = herc20::TokenTransfer {
        quantity: asset::Erc20Quantity::from_wei(1),
        ..good
    };
    let elsewhere = herc20::TokenTransfer {
        to: EthAddress::from_bytes([0x99; 20]),
        ..good
    };

    let block = |transfers: Vec<herc20::TokenTransfer>| herc20::EthBlock {
        hash: EthHash::from_bytes([0x01; 32]),
        parent: EthHash::from_bytes([0x00; 32]),
        timestamp: Timestamp::new(0),
        transfers,
    };

    match herc20::scan_block_for_funding(&block(vec![elsewhere, good]), &htlc, &p.asset) {
        Some(herc20::FundingOutcome::Correct { transaction, .. }) => {
            assert_eq!(transaction, good.transaction)
        }
        other => panic!("expected a correct funding, got {:?}", other),
    }
    match herc20::scan_block_for_funding(&block(vec![short]), &htlc, &p.asset) {
        Some(herc20::FundingOutcome::Incorrect { asset, .. }) => {
            assert_eq!(asset.quantity.wei, 1)
        }
        other => panic!("expected an incorrect funding, got {:?}", other),
    }
    assert!(herc20::scan_block_for_funding(&block(vec![elsewhere]), &htlc, &p.asset).is_none());
}

#[test]
fn confirmed_funding_surfaces_incorrect_amounts_as_errors() {
    let asset = asset::Erc20::new(
        EthAddress::from_bytes([0x20; 20]),
        asset::Erc20Quantity::from_wei(5),
    );
    let ok = herc20::confirm_funded(herc20::FundingOutcome::Correct {
        transaction: EthHash::from_bytes([0x37; 32]),
        asset,
    });
    assert!(ok.is_ok());
    let err = herc20::confirm_funded(herc20::FundingOutcome::Incorrect {
        transaction: EthHash::from_bytes([0x38; 32]),
        asset,
    });
    assert!(err.is_err());
}

#[test]
fn hbit_scan_finds_the_funding_output_and_checks_the_amount() {
    let script = vec![0x00u8, 0x14, 0xaa, 0xbb];
    let other_script = vec![0x51u8];
    let tx = hbit::Transaction {
        txid: Txid::from_bytes([0x0c; 32]),
        outputs: vec![
            hbit::TxOut {
                value: 7,
                script_pubkey: other_script.clone(),
            },
            hbit::TxOut {
                value: 100_000,
                script_pubkey: script.clone(),
            },
        ],
    };
    let block = hbit::Block {
        hash: [0x02; 32],
        parent: [0x01; 32],
        height: 5,
        transactions: vec![tx],
    };

    let expected = asset::Bitcoin::from_sat(100_000);
    match hbit::scan_block_for_funding(&block, &script, &expected) {
        Some(LedgerEvent::Funded {
            htlc_location,
            correctly,
            ..
        }) => {
            assert_eq!(htlc_location.vout, 1);
            assert!(correctly);
        }
        other => panic!("expected a funded event, got {:?}", other),
    }

    let wrong = asset::Bitcoin::from_sat(99_999);
    match hbit::scan_block_for_funding(&block, &script, &wrong) {
        Some(LedgerEvent::Funded { correctly, .. }) => assert!(!correctly),
        other => panic!("expected a funded event, got {:?}", other),
    }

    assert!(hbit::scan_block_for_funding(&block, &vec![0x99u8], &expected).is_none());
}

#[test]
fn refund_runs_only_after_a_funded_failure() {
    let deployed = herc20::Deployed {
        transaction: EthHash::from_bytes([0x39; 32]),
        location: EthAddress::from_bytes([0x3a; 20]),
    };
    assert!(herc20::refund_decision(&herc20::SwapRunOutcome::Completed).is_none());
    assert!(herc20::refund_decision(&herc20::SwapRunOutcome::FailedOtherwise).is_none());
    let d = herc20::refund_decision(&herc20::SwapRunOutcome::FailedShouldRefund(deployed)).unwrap();
    assert_eq!(d.location, deployed.location);
}

#[test]
fn halbit_actions_carry_the_finalized_parameters() {
    let finalized = Finalized {
        asset: asset::Bitcoin::from_sat(4_000),
        network: ledger::Bitcoin::Testnet,
        refund_identity: LightningIdentity::from_bytes([0x05; 33]),
        redeem_identity: LightningIdentity::from_bytes([0x06; 33]),
        cltv_expiry: RelativeTime::new(144),
        state: HalbitState::NotOpened,
    };
    let secret_hash = SecretHash::from_bytes([0x44; 32]);

    let init = finalized.build_init_action(secret_hash);
    assert_eq!(init.amount, asset::Bitcoin::from_sat(4_000));
    assert_eq!(init.expiry, INVOICE_EXPIRY_SECS);
    assert_eq!(init.chain, Chain::Bitcoin);
    assert_eq!(init.self_public_key.bytes, [0x06; 33]);

    let fund = finalized.build_fund_action(secret_hash);
    assert_eq!(fund.to_public_key.bytes, [0x06; 33]);
    assert_eq!(fund.self_public_key.bytes, [0x05; 33]);
    assert_eq!(fund.final_cltv_delta, RelativeTime::new(144));

    let redeem = finalized.build_redeem_action(secret());
    assert_eq!(redeem.secret, secret());
    assert_eq!(redeem.network, ledger::Bitcoin::Testnet);
}

#[test]
fn filter_out_orders_with_unexectubale_expiries() {
    let order_with_executable_expiries = order_with_executable_expiries();
    let unfiltered_orders = vec![
        order_with_executable_expiries.clone(),
        order_with_unexecutable_expiries(),
    ];

    let filtered_orders = unfiltered_orders
        .into_iter()
        .filter(|order| has_executable_expiries(order))
        .collect::<Vec<BtcDaiOrder>>();

    assert_eq!(filtered_orders.len(), 1);
    assert!(filtered_orders
        .iter()
        .any(|order| order_with_executable_expiries.id == order.id));
}

fn order_with_executable_expiries() -> BtcDaiOrder {
    BtcDaiOrder::sell(
        asset::Bitcoin::zero(),
        asset::Erc20Quantity::zero(),
        SwapProtocol::new(Role::Alice, Position::Sell),
    )
}

fn order_with_unexecutable_expiries() -> BtcDaiOrder {
    let unsafe_hbit_expiry_offset = 0u32;
    let unsafe_herc20_expiry_offset = 0u32;

    BtcDaiOrder::sell(
        asset::Bitcoin::zero(),
        asset::Erc20Quantity::zero(),
        SwapProtocol::HbitHerc20 {
            hbit_expiry_offset: unsafe_hbit_expiry_offset,
            herc20_expiry_offset: unsafe_herc20_expiry_offset,
        },
    )
}

#[test]
fn block_queries_need_a_condition_and_match_by_height() {
    let empty = BitcoinBlockQuery { min_height: None };
    assert!(empty.validate().is_err());

    let query = BitcoinBlockQuery {
        min_height: Some(10),
    };
    assert!(query.validate().is_ok());

    let block_at = |height: u32| hbit::Block {
        hash: [0x03; 32],
        parent: [0x02; 32],
        height,
        transactions: vec![],
    };
    assert_eq!(query.matches(&block_at(9)), QueryMatchResult::No);
    assert_eq!(query.matches(&block_at(10)), QueryMatchResult::Yes);
    assert_eq!(query.matches(&block_at(11)), QueryMatchResult::Yes);
    assert_eq!(empty.matches(&block_at(11)), QueryMatchResult::No);
}

#[test]
fn the_facade_answers_queries_by_swap_id_and_never_creates() {
    let mut facade = Facade::new();
    assert!(matches!(
        facade.current_communication(SwapId::new(1)),
        Err(FacadeError::UnknownSwap)
    ));
    assert!(matches!(
        facade.actions(SwapId::new(1), None),
        Err(FacadeError::UnknownSwap)
    ));

    facade.insert(accepted_swap(Role::Bob)).unwrap();
    assert!(matches!(
        facade.insert(accepted_swap(Role::Bob)),
        Err(FacadeError::SwapAlreadyExists)
    ));

    // Fold an observation into the swap and put it back; the queries
    // then see the new state.
    let mut swap = facade.get(SwapId::new(1)).unwrap();
    swap.apply_alpha(alpha_funded()).unwrap();
    facade.put_back(swap).unwrap();

    match facade.current_ledger_state(SwapId::new(1), Side::Alpha).unwrap() {
        comit::swap::SideState::Alpha(state) => {
            assert!(matches!(state, LedgerState::Funded { .. }))
        }
        _ => panic!("asked for the alpha leg"),
    }
    let actions = facade.actions(SwapId::new(1), None).unwrap();
    assert_eq!(actions.len(), 1);
    assert!(matches!(actions[0], Action::Herc20Deploy(_)));
}

#[test]
fn action_derivation_is_pure_and_repeatable() {
    let mut swap = accepted_swap(Role::Bob);
    swap.apply_alpha(alpha_funded()).unwrap();
    swap.apply_beta(beta_deployed()).unwrap();

    // Derivation mutates nothing, so asking twice with identical
    // inputs yields identical output.
    let first = swap.next_actions(None);
    let second = swap.next_actions(None);
    assert_eq!(first.len(), second.len());
    for (a, b) in first.iter().zip(second.iter()) {
        let a_name: comit::http::ActionName = a.clone().into();
        let b_name: comit::http::ActionName = b.clone().into();
        assert_eq!(a_name, b_name);
    }
}

#[test]
fn bob_reclaims_his_own_incorrect_beta_funding() {
    let mut swap = accepted_swap(Role::Bob);
    swap.apply_alpha(alpha_funded()).unwrap();
    swap.apply_beta(beta_deployed()).unwrap();
    let wrong_amount = LedgerEvent::Funded {
        htlc_location: EthAddress::from_bytes([0x30; 20]),
        transaction: EthHash::from_bytes([0x3b; 32]),
        correctly: false,
    };
    swap.apply_beta(wrong_amount).unwrap();

    let actions = swap.next_actions(Some(secret()));
    assert_eq!(actions.len(), 1);
    assert!(matches!(actions[0], Action::Herc20Refund(..)));
}

#[test]
fn alice_claims_beta_after_bob_redeems_alpha_early() {
    let mut swap = accepted_swap(Role::Alice);
    swap.apply_alpha(alpha_funded()).unwrap();
    swap.apply_beta(beta_deployed()).unwrap();
    swap.apply_beta(beta_funded()).unwrap();

    // The counterparty redeems alpha early: Alice's own leg is settled,
    // but her payout still sits in the funded beta HTLC. The one action
    // left is to claim it.
    let alpha_redeemed = LedgerEvent::Redeemed {
        transaction: Txid::from_bytes([0x0d; 32]),
        secret: secret(),
    };
    swap.apply_alpha(alpha_redeemed).unwrap();

    let actions = swap.next_actions(Some(secret()));
    assert_eq!(actions.len(), 1);
    match &actions[0] {
        Action::Herc20Redeem(_, deployed, s) => {
            assert_eq!(deployed.location, EthAddress::from_bytes([0x30; 20]));
            assert_eq!(*s, secret());
        }
        other => panic!("expected a redeem action, got {:?}", other),
    }
}

#[test]
fn alice_claims_beta_after_her_alpha_was_refunded() {
    let mut swap = accepted_swap(Role::Alice);
    swap.apply_alpha(alpha_funded()).unwrap();
    swap.apply_beta(beta_deployed()).unwrap();
    swap.apply_beta(beta_funded()).unwrap();

    let alpha_refunded = LedgerEvent::Refunded {
        transaction: Txid::from_bytes([0x0e; 32]),
    };
    swap.apply_alpha(alpha_refunded).unwrap();

    let actions = swap.next_actions(Some(secret()));
    assert_eq!(actions.len(), 1);
    assert!(matches!(actions[0], Action::Herc20Redeem(..)));

    // Without the secret there is nothing she can do.
    assert!(swap.next_actions(None).is_empty());
}

#[test]
fn alice_keeps_the_alpha_refund_after_beta_settles() {
    // Beta redeemed (her own redeem landed, or the watcher saw it
    // first): while alpha is still funded, the refund of alpha stays on
    // the table in case the counterparty never claims it.
    let mut swap = accepted_swap(Role::Alice);
    swap.apply_alpha(alpha_funded()).unwrap();
    swap.apply_beta(beta_deployed()).unwrap();
    swap.apply_beta(beta_funded()).unwrap();
    let beta_redeemed = LedgerEvent::Redeemed {
        transaction: EthHash::from_bytes([0x3c; 32]),
        secret: secret(),
    };
    swap.apply_beta(beta_redeemed).unwrap();

    let actions = swap.next_actions(Some(secret()));
    assert_eq!(actions.len(), 1);
    assert!(matches!(actions[0], Action::HbitRefund(..)));

    // Beta refunded by the counterparty: the same fallback.
    let mut swap = accepted_swap(Role::Alice);
    swap.apply_alpha(alpha_funded()).unwrap();
    swap.apply_beta(beta_deployed()).unwrap();
    let beta_refunded = LedgerEvent::Refunded {
        transaction: EthHash::from_bytes([0x3d; 32]),
    };
    swap.apply_beta(beta_refunded).unwrap();
    let actions = swap.next_actions(None);
    assert_eq!(actions.len(), 1);
    assert!(matches!(actions[0], Action::HbitRefund(..)));
}
