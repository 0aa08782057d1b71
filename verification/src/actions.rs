//! Derivation of the next protocol action from observed state: a pure
//! projection of (role, negotiation state, both legs' ledger state,
//! knowledge of the secret) onto the set of actions the local party
//! should take. Safe to call repeatedly and speculatively; it mutates
//! nothing.
//!
//! The alpha leg lives on Bitcoin, the beta leg on an Ethereum-family
//! chain. Alice proposes and funds alpha first; Bob accepts or
//! declines, then deploys and funds beta; whoever knows the secret
//! redeems.

use vstd::prelude::*;

use crate::hbit;
use crate::herc20;
use crate::secret::Secret;
use crate::state::{spec_is_terminal, LedgerState};
use crate::types::{EthAddress, EthHash, OutPoint, Txid};
use crate::Role;

verus! {

/// The immutable parameters of both legs, agreed during negotiation.
#[derive(Clone, Copy, Debug)]
pub struct SwapParams {
    pub alpha: hbit::Params,
    pub beta: herc20::Params,
}

/// A well-formed agreement locks both legs under the same secret hash.
pub open spec fn params_well_formed(params: SwapParams) -> bool {
    params.alpha.secret_hash@ == params.beta.secret_hash@
}

/// Negotiation status between the parties. Set once by the negotiation
/// exchange and never re-opened.
#[derive(Clone, Copy, Debug)]
pub enum SwapCommunication {
    /// Proposed by Alice; Bob's response is pending.
    Proposed,
    /// Bob accepted; the parameters of both legs are fixed.
    Accepted { params: SwapParams },
    /// Bob declined. Nothing further happens.
    Rejected,
}

/// One on-chain or negotiation action the local party should take.
/// When several are returned no order is implied between them: the
/// executor tries whichever best serves its own safety and treats all
/// as valid until one lands on-chain.
#[derive(Clone, Copy, Debug)]
pub enum Action {
    /// Accept the proposed swap (Bob only).
    Accept,
    /// Decline the proposed swap (Bob only).
    Decline,
    Herc20Deploy(herc20::Params),
    Herc20Fund(herc20::Params, herc20::Deployed),
    Herc20Redeem(herc20::Params, herc20::Deployed, Secret),
    Herc20Refund(herc20::Params, herc20::Deployed),
    HbitFund(hbit::Params),
    HbitRedeem(hbit::Params, hbit::Funded, Secret),
    HbitRefund(hbit::Params, hbit::Funded),
}

/// Either leg of a swap run can fail by incorrect funding; the payload
/// carries the leg's own account of it.
#[derive(Clone, Copy, Debug)]
pub enum Error<A, B> {
    AlphaIncorrectlyFunded(A),
    BetaIncorrectlyFunded(B),
}

/// The deployment a beta-leg state implies: its HTLC location and the
/// transaction that put the contract there.
pub open spec fn spec_beta_deployed(state: LedgerState<EthAddress, EthHash>) -> herc20::Deployed {
    match state {
        LedgerState::Deployed { htlc_location, deploy_transaction } => herc20::Deployed {
            transaction: deploy_transaction,
            location: htlc_location,
        },
        LedgerState::Funded { htlc_location, deploy_transaction, .. } => herc20::Deployed {
            transaction: deploy_transaction,
            location: htlc_location,
        },
        LedgerState::IncorrectlyFunded { htlc_location, deploy_transaction, .. } => herc20::Deployed {
            transaction: deploy_transaction,
            location: htlc_location,
        },
        _ => arbitrary(),
    }
}

fn beta_deployed(state: &LedgerState<EthAddress, EthHash>) -> (r: herc20::Deployed)
    requires
        state is Deployed || state is Funded || state is IncorrectlyFunded,
    ensures
        r == spec_beta_deployed(*state),
{
    match state {
        LedgerState::Deployed { htlc_location, deploy_transaction } => herc20::Deployed {
            transaction: *deploy_transaction,
            location: *htlc_location,
        },
        LedgerState::Funded { htlc_location, deploy_transaction, .. } => herc20::Deployed {
            transaction: *deploy_transaction,
            location: *htlc_location,
        },
        LedgerState::IncorrectlyFunded { htlc_location, deploy_transaction, .. } => herc20::Deployed {
            transaction: *deploy_transaction,
            location: *htlc_location,
        },
        _ => unreached(),
    }
}

/// The funding an alpha-leg state implies: the agreed amount at the
/// observed HTLC location.
pub open spec fn spec_alpha_funded(params: SwapParams, state: LedgerState<OutPoint, Txid>)
    -> hbit::Funded {
    match state {
        LedgerState::Funded { htlc_location, .. } => hbit::Funded {
            asset: params.alpha.asset,
            location: htlc_location,
        },
        LedgerState::IncorrectlyFunded { htlc_location, .. } => hbit::Funded {
            asset: params.alpha.asset,
            location: htlc_location,
        },
        _ => arbitrary(),
    }
}

/// Bob's side of the decision table.
///
/// Bob acts only while alpha is funded correctly and neither leg is
/// terminal: he deploys beta, funds it, and — once the secret is known
/// and beta has a deployment to redeem — redeeming supersedes funding.
/// An incorrectly funded leg puts the swap on a refund-only path: with
/// alpha funded wrong Bob never deploys or funds, and only reclaims
/// beta if he already funded it.
pub open spec fn bob_actions_spec(
    params: SwapParams,
    alpha: LedgerState<OutPoint, Txid>,
    beta: LedgerState<EthAddress, EthHash>,
    secret: Option<Secret>,
) -> Seq<Action> {
    if spec_is_terminal(alpha) || spec_is_terminal(beta) {
        Seq::<Action>::empty()
    } else {
        match alpha {
            LedgerState::Funded { .. } => {
                if secret is Some && (beta is Deployed || beta is Funded) {
                    seq![Action::Herc20Redeem(params.beta, spec_beta_deployed(beta), secret->0)]
                } else {
                    match beta {
                        LedgerState::NotDeployed => seq![Action::Herc20Deploy(params.beta)],
                        LedgerState::Deployed { .. } => seq![
                            Action::Herc20Fund(params.beta, spec_beta_deployed(beta)),
                        ],
                        LedgerState::IncorrectlyFunded { .. } => seq![
                            Action::Herc20Refund(params.beta, spec_beta_deployed(beta)),
                        ],
                        _ => Seq::<Action>::empty(),
                    }
                }
            },
            LedgerState::IncorrectlyFunded { .. } => {
                match beta {
                    LedgerState::Funded { .. } => seq![
                        Action::Herc20Refund(params.beta, spec_beta_deployed(beta)),
                    ],
                    _ => Seq::<Action>::empty(),
                }
            },
            _ => Seq::<Action>::empty(),
        }
    }
}

/// Alice's side of the decision table, mirrored from Bob's.
///
/// Alice funds alpha upon acceptance while beta shows nothing
/// unexpected. Once both legs are funded and the secret is known she
/// is simultaneously eligible to redeem beta and to refund alpha; both
/// are returned together because which one succeeds is a race against
/// the counterparty and the expiry clock, and the engine does not
/// decide it. When beta resolves against her (redeemed or refunded
/// while she still holds alpha's funds, or funded incorrectly) she
/// falls back to refunding alpha, as she does when her own funding was
/// classified incorrect. And when her own leg resolves without her —
/// the counterparty redeems or the expiry refunds it — while beta is
/// still funded and she knows the secret, the one thing left is to
/// claim beta: her payout must never sit unclaimed because alpha
/// settled first.
pub open spec fn alice_actions_spec(
    params: SwapParams,
    alpha: LedgerState<OutPoint, Txid>,
    beta: LedgerState<EthAddress, EthHash>,
    secret: Option<Secret>,
) -> Seq<Action> {
    match alpha {
        LedgerState::NotDeployed => {
            if beta is NotDeployed || beta is Deployed {
                seq![Action::HbitFund(params.alpha)]
            } else {
                Seq::<Action>::empty()
            }
        },
        LedgerState::Funded { .. } => {
            match beta {
                LedgerState::Funded { .. } => {
                    if secret is Some {
                        seq![
                            Action::Herc20Redeem(params.beta, spec_beta_deployed(beta), secret->0),
                            Action::HbitRefund(params.alpha, spec_alpha_funded(params, alpha)),
                        ]
                    } else {
                        Seq::<Action>::empty()
                    }
                },
                LedgerState::Redeemed { .. } => seq![
                    Action::HbitRefund(params.alpha, spec_alpha_funded(params, alpha)),
                ],
                LedgerState::Refunded { .. } => seq![
                    Action::HbitRefund(params.alpha, spec_alpha_funded(params, alpha)),
                ],
                LedgerState::IncorrectlyFunded { .. } => seq![
                    Action::HbitRefund(params.alpha, spec_alpha_funded(params, alpha)),
                ],
                _ => Seq::<Action>::empty(),
            }
        },
        LedgerState::IncorrectlyFunded { .. } => seq![
            Action::HbitRefund(params.alpha, spec_alpha_funded(params, alpha)),
        ],
        LedgerState::Redeemed { .. } | LedgerState::Refunded { .. } => {
            if beta is Funded && secret is Some {
                seq![Action::Herc20Redeem(params.beta, spec_beta_deployed(beta), secret->0)]
            } else {
                Seq::<Action>::empty()
            }
        },
        _ => Seq::<Action>::empty(),
    }
}

/// The whole decision table: which actions the local party should take
/// given everything it has observed.
pub open spec fn actions_spec(
    role: Role,
    comm: SwapCommunication,
    alpha: LedgerState<OutPoint, Txid>,
    beta: LedgerState<EthAddress, EthHash>,
    secret: Option<Secret>,
) -> Seq<Action> {
    match comm {
        SwapCommunication::Proposed => {
            if role is Bob {
                seq![Action::Accept, Action::Decline]
            } else {
                Seq::<Action>::empty()
            }
        },
        SwapCommunication::Rejected => Seq::<Action>::empty(),
        SwapCommunication::Accepted { params } => {
            if role is Bob {
                bob_actions_spec(params, alpha, beta, secret)
            } else {
                alice_actions_spec(params, alpha, beta, secret)
            }
        },
    }
}

/// Derives the next required actions. A pure projection: the result is
/// a function of the arguments alone and the arguments are left
/// untouched.
pub fn actions(
    role: Role,
    comm: &SwapCommunication,
    alpha: &LedgerState<OutPoint, Txid>,
    beta: &LedgerState<EthAddress, EthHash>,
    secret: Option<Secret>,
) -> (r: Vec<Action>)
    ensures
        r@ == actions_spec(role, *comm, *alpha, *beta, secret),
{
    let mut r: Vec<Action> = Vec::new();
    match comm {
        SwapCommunication::Proposed => {
            if let Role::Bob = role {
                r.push(Action::Accept);
                r.push(Action::Decline);
            }
        },
        SwapCommunication::Rejected => {},
        SwapCommunication::Accepted { params } => {
            match role {
                Role::Bob => {
                    if alpha.is_terminal() || beta.is_terminal() {
                    } else {
                        match alpha {
                            LedgerState::Funded { .. } => {
                                let beta_has_deployment = match beta {
                                    LedgerState::Deployed { .. } => true,
                                    LedgerState::Funded { .. } => true,
                                    _ => false,
                                };
                                if secret.is_some() && beta_has_deployment {
                                    r.push(
                                        Action::Herc20Redeem(
                                            params.beta,
                                            beta_deployed(beta),
                                            secret.unwrap(),
                                        ),
                                    );
                                } else {
                                    match beta {
                                        LedgerState::NotDeployed => {
                                            r.push(Action::Herc20Deploy(params.beta));
                                        },
                                        LedgerState::Deployed { .. } => {
                                            r.push(
                                                Action::Herc20Fund(params.beta, beta_deployed(beta)),
                                            );
                                        },
                                        LedgerState::IncorrectlyFunded { .. } => {
                                            r.push(
                                                Action::Herc20Refund(
                                                    params.beta,
                                                    beta_deployed(beta),
                                                ),
                                            );
                                        },
                                        _ => {},
                                    }
                                }
                            },
                            LedgerState::IncorrectlyFunded { .. } => {
                                match beta {
                                    LedgerState::Funded { .. } => {
                                        r.push(
                                            Action::Herc20Refund(params.beta, beta_deployed(beta)),
                                        );
                                    },
                                    _ => {},
                                }
                            },
                            _ => {},
                        }
                    }
                },
                Role::Alice => {
                    match alpha {
                        LedgerState::NotDeployed => {
                            let beta_waiting = match beta {
                                LedgerState::NotDeployed => true,
                                LedgerState::Deployed { .. } => true,
                                _ => false,
                            };
                            if beta_waiting {
                                r.push(Action::HbitFund(params.alpha));
                            }
                        },
                        LedgerState::Funded { .. } => {
                            match beta {
                                LedgerState::Funded { .. } => {
                                    if secret.is_some() {
                                        r.push(
                                            Action::Herc20Redeem(
                                                params.beta,
                                                beta_deployed(beta),
                                                secret.unwrap(),
                                            ),
                                        );
                                        r.push(
                                            Action::HbitRefund(
                                                params.alpha,
                                                alpha_funded(params, alpha),
                                            ),
                                        );
                                    }
                                },
                                LedgerState::Redeemed { .. } => {
                                    r.push(
                                        Action::HbitRefund(params.alpha, alpha_funded(params, alpha)),
                                    );
                                },
                                LedgerState::Refunded { .. } => {
                                    r.push(
                                        Action::HbitRefund(params.alpha, alpha_funded(params, alpha)),
                                    );
                                },
                                LedgerState::IncorrectlyFunded { .. } => {
                                    r.push(
                                        Action::HbitRefund(params.alpha, alpha_funded(params, alpha)),
                                    );
                                },
                                _ => {},
                            }
                        },
                        LedgerState::IncorrectlyFunded { .. } => {
                            r.push(Action::HbitRefund(params.alpha, alpha_funded(params, alpha)));
                        },
                        LedgerState::Redeemed { .. } | LedgerState::Refunded { .. } => {
                            let beta_still_funded = match beta {
                                LedgerState::Funded { .. } => true,
                                _ => false,
                            };
                            if beta_still_funded && secret.is_some() {
                                r.push(
                                    Action::Herc20Redeem(
                                        params.beta,
                                        beta_deployed(beta),
                                        secret.unwrap(),
                                    ),
                                );
                            }
                        },
                        _ => {},
                    }
                },
            }
        },
    }
    proof {
        assert(r@ =~= actions_spec(role, *comm, *alpha, *beta, secret));
    }
    r
}

fn alpha_funded(params: &SwapParams, state: &LedgerState<OutPoint, Txid>) -> (r: hbit::Funded)
    requires
        state is Funded || state is IncorrectlyFunded,
    ensures
        r == spec_alpha_funded(*params, *state),
{
    match state {
        LedgerState::Funded { htlc_location, .. } => hbit::Funded {
            asset: params.alpha.asset,
            location: *htlc_location,
        },
        LedgerState::IncorrectlyFunded { htlc_location, .. } => hbit::Funded {
            asset: params.alpha.asset,
            location: *htlc_location,
        },
        _ => unreached(),
    }
}

/// Whether an action only reclaims the local party's own funds.
pub open spec fn spec_is_refund(a: Action) -> bool {
    a is HbitRefund || a is Herc20Refund
}

/// Purity of derivation: the action set is a function of the inputs
/// alone, so two derivations from identical inputs are identical.
pub proof fn lemma_actions_deterministic(
    role: Role,
    comm: SwapCommunication,
    alpha: LedgerState<OutPoint, Txid>,
    beta: LedgerState<EthAddress, EthHash>,
    secret: Option<Secret>,
    r1: Seq<Action>,
    r2: Seq<Action>,
)
    requires
        r1 == actions_spec(role, comm, alpha, beta, secret),
        r2 == actions_spec(role, comm, alpha, beta, secret),
    ensures
        r1 == r2,
{
}

/// The funding correctness gate, on the action side: once either leg
/// of an accepted swap is classified incorrectly funded, every derived
/// action is a refund — the engine never deploys, funds or redeems
/// across a wrong amount. (A leg can only be funded at all once the
/// swap is accepted.)
pub proof fn lemma_incorrect_funding_refund_only(
    role: Role,
    comm: SwapCommunication,
    alpha: LedgerState<OutPoint, Txid>,
    beta: LedgerState<EthAddress, EthHash>,
    secret: Option<Secret>,
)
    requires
        comm is Accepted,
        alpha is IncorrectlyFunded || beta is IncorrectlyFunded,
    ensures
        forall|i: int|
            0 <= i < actions_spec(role, comm, alpha, beta, secret).len() ==> spec_is_refund(
                #[trigger] actions_spec(role, comm, alpha, beta, secret)[i],
            ),
{
}

/// Redeeming supersedes deploying and funding: for Bob, once alpha is
/// funded, the secret is known, and beta has a deployment to spend
/// (deployed or funded), the derived set is exactly one redeem of the
/// beta leg with that secret. The two beta states left aside have
/// nothing to redeem: an undeployed beta holds no contract yet, and an
/// incorrectly funded one is on the refund-only path.
pub proof fn lemma_bob_redeem_supersedes(
    params: SwapParams,
    alpha: LedgerState<OutPoint, Txid>,
    beta: LedgerState<EthAddress, EthHash>,
    secret: Secret,
)
    requires
        alpha is Funded,
        beta is Deployed || beta is Funded,
    ensures
        actions_spec(
            Role::Bob,
            SwapCommunication::Accepted { params },
            alpha,
            beta,
            Some(secret),
        ) =~= seq![Action::Herc20Redeem(params.beta, spec_beta_deployed(beta), secret)],
{
}

/// Alice's payout is never stranded: once her own leg has settled
/// without her — redeemed early by the counterparty, or refunded —
/// while the beta leg is still funded and she knows the secret, the
/// derived set is exactly the redeem of the beta leg.
pub proof fn lemma_alice_claims_after_alpha_settles(
    params: SwapParams,
    alpha: LedgerState<OutPoint, Txid>,
    beta: LedgerState<EthAddress, EthHash>,
    secret: Secret,
)
    requires
        alpha is Redeemed || alpha is Refunded,
        beta is Funded,
    ensures
        actions_spec(
            Role::Alice,
            SwapCommunication::Accepted { params },
            alpha,
            beta,
            Some(secret),
        ) =~= seq![Action::Herc20Redeem(params.beta, spec_beta_deployed(beta), secret)],
{
}

/// For Bob a terminal state on either leg finishes the swap: no
/// further action is derived.
pub proof fn lemma_bob_terminal_no_actions(
    comm: SwapCommunication,
    alpha: LedgerState<OutPoint, Txid>,
    beta: LedgerState<EthAddress, EthHash>,
    secret: Option<Secret>,
)
    requires
        comm is Accepted,
        spec_is_terminal(alpha) || spec_is_terminal(beta),
    ensures
        actions_spec(Role::Bob, comm, alpha, beta, secret) == Seq::<Action>::empty(),
{
}

} // verus!
