//! The ERC20 leg of a swap: its immutable parameters, the events a
//! watcher can observe for it, and the funding-correctness gate.

use vstd::prelude::*;

use crate::asset::{Erc20, Erc20Quantity};
use crate::secret::{Secret, SecretHash};
use crate::state::LedgerEvent;
use crate::types::{ChainId, ConnectorError, EthAddress, EthHash, Timestamp};

verus! {

/// Immutable HTLC parameters of an ERC20 leg, fixed once both
/// parties' identities are known.
#[derive(Clone, Copy, Debug)]
pub struct Params {
    pub asset: Erc20,
    pub redeem_identity: EthAddress,
    pub refund_identity: EthAddress,
    pub expiry: Timestamp,
    pub secret_hash: SecretHash,
    pub chain_id: ChainId,
}

/// The HTLC contract exists on the chain.
#[derive(Clone, Copy, Debug)]
pub struct Deployed {
    pub transaction: EthHash,
    pub location: EthAddress,
}

/// The HTLC holds the agreed asset.
#[derive(Clone, Copy, Debug)]
pub struct Funded {
    pub transaction: EthHash,
    pub asset: Erc20,
}

/// The HTLC was spent with the secret.
#[derive(Clone, Copy, Debug)]
pub struct Redeemed {
    pub transaction: EthHash,
    pub secret: Secret,
}

/// The HTLC was reclaimed by its funder.
#[derive(Clone, Copy, Debug)]
pub struct Refunded {
    pub transaction: EthHash,
}

/// What a watcher concluded about a funding transaction: funded with
/// exactly the agreed asset, or with anything else.
#[derive(Clone, Copy, Debug)]
pub enum FundingOutcome {
    Correct { transaction: EthHash, asset: Erc20 },
    Incorrect { transaction: EthHash, asset: Erc20 },
}

/// An HTLC funded with the wrong amount or asset. The swap moves to a
/// refund-only path; this is never a fatal abort.
#[derive(Clone, Copy, Debug)]
pub struct IncorrectFunding {
    pub transaction: EthHash,
    pub asset: Erc20,
}

/// An ERC20 transfer observed on the chain, reduced to what the
/// watcher inspects: which token moved, where to, and how much.
#[derive(Clone, Copy, Debug)]
pub struct TokenTransfer {
    pub transaction: EthHash,
    pub token_contract: EthAddress,
    pub to: EthAddress,
    pub quantity: Erc20Quantity,
}

/// An Ethereum block, reduced to what the watcher inspects.
#[derive(Clone, Debug)]
pub struct EthBlock {
    pub hash: EthHash,
    pub parent: EthHash,
    pub timestamp: Timestamp,
    pub transfers: Vec<TokenTransfer>,
}

/// Whether a transfer funds the HTLC at `htlc` in the agreed token.
/// The quantity is judged separately: a transfer of the right token to
/// the right place with the wrong quantity is an incorrect funding,
/// not a non-event.
pub open spec fn spec_transfer_matches(t: TokenTransfer, htlc: EthAddress, expected: Erc20) -> bool {
    t.to@ == htlc@ && t.token_contract@ == expected.token_contract@
}

/// Classifies a funding transfer against the agreed asset: `Correct`
/// exactly when the quantity agrees.
pub open spec fn spec_classify(t: TokenTransfer, expected: Erc20) -> FundingOutcome {
    if t.quantity == expected.quantity {
        FundingOutcome::Correct {
            transaction: t.transaction,
            asset: Erc20 { token_contract: t.token_contract, quantity: t.quantity },
        }
    } else {
        FundingOutcome::Incorrect {
            transaction: t.transaction,
            asset: Erc20 { token_contract: t.token_contract, quantity: t.quantity },
        }
    }
}

/// The first transfer in a block that funds the HTLC, if any.
pub open spec fn spec_find_funding(
    transfers: Seq<TokenTransfer>,
    htlc: EthAddress,
    expected: Erc20,
) -> Option<TokenTransfer>
    decreases transfers.len(),
{
    if transfers.len() == 0 {
        None
    } else if spec_transfer_matches(transfers.first(), htlc, expected) {
        Some(transfers.first())
    } else {
        spec_find_funding(transfers.drop_first(), htlc, expected)
    }
}

/// Scans one block for a transfer funding the HTLC at `htlc`, and
/// classifies the first one found against the agreed asset.
pub fn scan_block_for_funding(
    block: &EthBlock,
    htlc: &EthAddress,
    expected: &Erc20,
) -> (r: Option<FundingOutcome>)
    ensures
        r matches Some(outcome) ==> spec_find_funding(block.transfers@, *htlc, *expected)
            matches Some(t) && outcome == spec_classify(t, *expected),
        r is None <==> spec_find_funding(block.transfers@, *htlc, *expected) is None,
{
    let n = block.transfers.len();
    assert(block.transfers@.skip(0) == block.transfers@);
    let mut i: usize = 0;
    while i < n
        invariant
            n == block.transfers@.len(),
            i <= n,
            spec_find_funding(block.transfers@, *htlc, *expected) == spec_find_funding(
                block.transfers@.skip(i as int),
                *htlc,
                *expected,
            ),
        decreases n - i,
    {
        let t = &block.transfers[i];
        proof {
            assert(block.transfers@.skip(i as int).first() == block.transfers@[i as int]);
            assert(block.transfers@.skip(i as int).drop_first() =~= block.transfers@.skip(
                i as int + 1,
            ));
        }
        if crate::types::bytes_eq(&t.to.bytes, &htlc.bytes) && crate::types::bytes_eq(
            &t.token_contract.bytes,
            &expected.token_contract.bytes,
        ) {
            if t.quantity.wei == expected.quantity.wei {
                return Some(
                    FundingOutcome::Correct {
                        transaction: t.transaction,
                        asset: Erc20 { token_contract: t.token_contract, quantity: t.quantity },
                    },
                );
            } else {
                return Some(
                    FundingOutcome::Incorrect {
                        transaction: t.transaction,
                        asset: Erc20 { token_contract: t.token_contract, quantity: t.quantity },
                    },
                );
            }
        }
        i = i + 1;
    }
    assert(block.transfers@.skip(n as int) =~= Seq::<TokenTransfer>::empty());
    None
}

/// The transaction a funding observation saw, correct or not.
pub open spec fn spec_outcome_transaction(outcome: FundingOutcome) -> EthHash {
    match outcome {
        FundingOutcome::Correct { transaction, .. } => transaction,
        FundingOutcome::Incorrect { transaction, .. } => transaction,
    }
}

/// The ledger event a classified funding observation stands for: the
/// gate that keeps an incorrect funding from ever reading as correct.
pub fn funding_event(htlc_location: EthAddress, outcome: &FundingOutcome) -> (r: LedgerEvent<
    EthAddress,
    EthHash,
>)
    ensures
        r == (LedgerEvent::Funded {
            htlc_location,
            transaction: spec_outcome_transaction(*outcome),
            correctly: outcome is Correct,
        }),
{
    match outcome {
        FundingOutcome::Correct { transaction, .. } => LedgerEvent::Funded {
            htlc_location,
            transaction: *transaction,
            correctly: true,
        },
        FundingOutcome::Incorrect { transaction, .. } => LedgerEvent::Funded {
            htlc_location,
            transaction: *transaction,
            correctly: false,
        },
    }
}

/// A correctly classified funding is the `Funded` event; an incorrect
/// one is surfaced as `IncorrectFunding`, never treated as funded.
pub fn confirm_funded(outcome: FundingOutcome) -> (r: Result<Funded, IncorrectFunding>)
    ensures
        r matches Ok(f) ==> outcome matches FundingOutcome::Correct { transaction, asset }
            && f.transaction == transaction && f.asset == asset,
        r matches Err(e) ==> outcome matches FundingOutcome::Incorrect { transaction, asset }
            && e.transaction == transaction && e.asset == asset,
        r is Ok <==> outcome is Correct,
{
    match outcome {
        FundingOutcome::Correct { transaction, asset } => Ok(Funded { transaction, asset }),
        FundingOutcome::Incorrect { transaction, asset } => Err(
            IncorrectFunding { transaction, asset },
        ),
    }
}

/// Whether a failed swap run calls for a refund of this leg: only a
/// failure that left the deployed HTLC funded does.
#[derive(Clone, Copy, Debug)]
pub enum SwapRunOutcome {
    Completed,
    FailedShouldRefund(Deployed),
    FailedOtherwise,
}

/// The refund decision of a finished swap run: refund exactly when the
/// run failed holding a deployed, funded HTLC.
pub fn refund_decision(outcome: &SwapRunOutcome) -> (r: Option<Deployed>)
    ensures
        r is Some <==> outcome is FailedShouldRefund,
        r matches Some(d) ==> *outcome == SwapRunOutcome::FailedShouldRefund(d),
{
    match outcome {
        SwapRunOutcome::FailedShouldRefund(deployed) => Some(*deployed),
        _ => None,
    }
}

/// Executes the deployment of an ERC20 HTLC: implemented by whatever
/// wallet the surrounding process wires in.
pub trait ExecuteDeploy {
    fn execute_deploy(&self, params: Params) -> Result<Deployed, ConnectorError>;
}

/// Executes the funding of a deployed ERC20 HTLC.
pub trait ExecuteFund {
    fn execute_fund(
        &self,
        params: Params,
        deploy_event: Deployed,
        utc_start_of_swap: Timestamp,
    ) -> Result<Funded, ConnectorError>;
}

/// Executes the redeem of a funded ERC20 HTLC with the secret.
pub trait ExecuteRedeem {
    fn execute_redeem(
        &self,
        params: Params,
        secret: Secret,
        deploy_event: Deployed,
        utc_start_of_swap: Timestamp,
    ) -> Result<Redeemed, ConnectorError>;
}

/// Executes the refund of a deployed ERC20 HTLC after its expiry.
pub trait ExecuteRefund {
    fn execute_refund(
        &self,
        params: Params,
        deploy_event: Deployed,
        utc_start_of_swap: Timestamp,
    ) -> Result<Refunded, ConnectorError>;
}

/// Fixed parameters for one ERC20 leg: a gwei of the given token.
pub fn params(
    secret_hash: SecretHash,
    chain_id: ChainId,
    redeem_identity: EthAddress,
    refund_identity: EthAddress,
    token_contract: EthAddress,
    expiry: Timestamp,
) -> (r: Params)
    ensures
        r.secret_hash@ == secret_hash@,
        r.chain_id == chain_id,
        r.redeem_identity@ == redeem_identity@,
        r.refund_identity@ == refund_identity@,
        r.expiry == expiry,
        r.asset.token_contract@ == token_contract@,
        r.asset.quantity.wei == 1_000_000_000,
{
    let quantity = Erc20Quantity::from_wei(1_000_000_000);
    let asset = Erc20::new(token_contract, quantity);
    Params { asset, redeem_identity, refund_identity, expiry, secret_hash, chain_id }
}

} // verus!
