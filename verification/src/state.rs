//! Per-leg HTLC state and the folding of observed events into it.
//!
//! State moves only along the partial order
//! `NotDeployed < Deployed < {Funded, IncorrectlyFunded} < {Redeemed, Refunded}`;
//! no transition moves backward. A later-kind event implies all earlier
//! kinds for its leg, so a `Funded` observation is valid without a
//! stored `Deployed` one (ledgers without a separate deploy step skip
//! straight to `Funded`).
//!
//! The machine is generic over the location type `L` and the
//! transaction id type `T` of the leg's ledger.

use vstd::prelude::*;

use crate::digest::sha256_of;
use crate::secret::{Secret, SecretHash};

verus! {

/// Observed progress of one leg's HTLC.
#[derive(Clone, Copy, Debug)]
pub enum LedgerState<L, T> {
    /// Nothing observed yet.
    NotDeployed,
    /// The HTLC exists on the ledger but holds no funds yet.
    Deployed { htlc_location: L, deploy_transaction: T },
    /// The HTLC holds exactly the agreed asset. When funding was
    /// observed without a prior deploy (ledgers with no separate
    /// deploy step), the implied deployment is backfilled with the
    /// funding transaction itself.
    Funded { htlc_location: L, deploy_transaction: T, fund_transaction: T },
    /// The HTLC was funded with the wrong amount or asset; the swap
    /// may only move along the refund path from here.
    IncorrectlyFunded { htlc_location: L, deploy_transaction: T, fund_transaction: T },
    /// The HTLC was spent with the secret. Terminal.
    Redeemed { redeem_transaction: T, secret: Secret },
    /// The HTLC was reclaimed by its funder after expiry. Terminal.
    Refunded { refund_transaction: T },
}

/// An observation a ledger watcher hands to the engine. A `Funded`
/// observation arrives already classified against the agreed amount
/// and asset (`correctly`).
#[derive(Clone, Copy, Debug)]
pub enum LedgerEvent<L, T> {
    Deployed { htlc_location: L, transaction: T },
    Funded { htlc_location: L, transaction: T, correctly: bool },
    Redeemed { transaction: T, secret: Secret },
    Refunded { transaction: T },
}

/// Why an observation was rejected.
#[derive(Clone, Copy, Debug, PartialEq, Eq, Structural)]
pub enum ApplyError {
    /// An event of this kind is already reflected in the state.
    /// A watcher or caller bug; never silently merged.
    DuplicateEvent,
    /// A redeem whose revealed secret does not hash to the agreed
    /// secret hash. The observation is discarded, the state unchanged.
    ProtocolViolation,
}

/// What applying an accepted observation did.
#[derive(Clone, Copy, Debug)]
pub enum ApplyOutcome<L, T> {
    /// The leg moved to this new state.
    Advanced(LedgerState<L, T>),
    /// The leg is in a terminal state; the observation is stale and
    /// ignored. Not an error.
    Stale,
}

/// Position of a state in the transition order.
pub open spec fn state_rank<L, T>(s: LedgerState<L, T>) -> int {
    match s {
        LedgerState::NotDeployed => 0,
        LedgerState::Deployed { .. } => 1,
        LedgerState::Funded { .. } => 2,
        LedgerState::IncorrectlyFunded { .. } => 2,
        LedgerState::Redeemed { .. } => 3,
        LedgerState::Refunded { .. } => 3,
    }
}

/// Whether a state accepts no further transitions.
pub open spec fn spec_is_terminal<L, T>(s: LedgerState<L, T>) -> bool {
    s is Redeemed || s is Refunded
}

impl<L, T> LedgerState<L, T> {
    /// Whether this state accepts no further transitions.
    pub fn is_terminal(&self) -> (r: bool)
        ensures
            r == spec_is_terminal(*self),
    {
        match self {
            LedgerState::Redeemed { .. } => true,
            LedgerState::Refunded { .. } => true,
            _ => false,
        }
    }
}

/// The transition relation, one observation at a time.
///
/// * In a terminal state every observation is stale and ignored.
/// * A `Deployed` observation advances only a `NotDeployed` leg; once
///   deployment is reflected (or implied by a later state) a second
///   one is a duplicate.
/// * A `Funded` observation advances a `NotDeployed` or `Deployed`
///   leg, to `Funded` when classified correct and to
///   `IncorrectlyFunded` otherwise — never the wrong way around.
/// * A `Redeemed` observation whose secret does not hash to the agreed
///   secret hash is a protocol violation and changes nothing. With the
///   right secret it advances any non-terminal state, since a redeem
///   implies all earlier kinds.
/// * A `Refunded` observation advances any non-terminal state.
pub open spec fn apply_spec<L, T>(
    state: LedgerState<L, T>,
    event: LedgerEvent<L, T>,
    secret_hash: Seq<u8>,
) -> Result<ApplyOutcome<L, T>, ApplyError> {
    if spec_is_terminal(state) {
        Ok(ApplyOutcome::Stale)
    } else {
        match event {
            LedgerEvent::Deployed { htlc_location, transaction } => {
                if state is NotDeployed {
                    Ok(
                        ApplyOutcome::Advanced(
                            LedgerState::Deployed {
                                htlc_location,
                                deploy_transaction: transaction,
                            },
                        ),
                    )
                } else {
                    Err(ApplyError::DuplicateEvent)
                }
            },
            LedgerEvent::Funded { htlc_location, transaction, correctly } => {
                match state {
                    LedgerState::NotDeployed => {
                        if correctly {
                            Ok(
                                ApplyOutcome::Advanced(
                                    LedgerState::Funded {
                                        htlc_location,
                                        deploy_transaction: transaction,
                                        fund_transaction: transaction,
                                    },
                                ),
                            )
                        } else {
                            Ok(
                                ApplyOutcome::Advanced(
                                    LedgerState::IncorrectlyFunded {
                                        htlc_location,
                                        deploy_transaction: transaction,
                                        fund_transaction: transaction,
                                    },
                                ),
                            )
                        }
                    },
                    LedgerState::Deployed { deploy_transaction, .. } => {
                        if correctly {
                            Ok(
                                ApplyOutcome::Advanced(
                                    LedgerState::Funded {
                                        htlc_location,
                                        deploy_transaction,
                                        fund_transaction: transaction,
                                    },
                                ),
                            )
                        } else {
                            Ok(
                                ApplyOutcome::Advanced(
                                    LedgerState::IncorrectlyFunded {
                                        htlc_location,
                                        deploy_transaction,
                                        fund_transaction: transaction,
                                    },
                                ),
                            )
                        }
                    },
                    _ => Err(ApplyError::DuplicateEvent),
                }
            },
            LedgerEvent::Redeemed { transaction, secret } => {
                if sha256_of(secret@) != secret_hash {
                    Err(ApplyError::ProtocolViolation)
                } else {
                    Ok(
                        ApplyOutcome::Advanced(
                            LedgerState::Redeemed { redeem_transaction: transaction, secret },
                        ),
                    )
                }
            },
            LedgerEvent::Refunded { transaction } => {
                Ok(ApplyOutcome::Advanced(LedgerState::Refunded { refund_transaction: transaction }))
            },
        }
    }
}

/// Folds one observation into a leg's state.
pub fn apply<L: Copy, T: Copy>(
    state: &LedgerState<L, T>,
    event: LedgerEvent<L, T>,
    secret_hash: &SecretHash,
) -> (r: Result<ApplyOutcome<L, T>, ApplyError>)
    ensures
        r == apply_spec(*state, event, secret_hash@),
{
    if state.is_terminal() {
        return Ok(ApplyOutcome::Stale);
    }
    match event {
        LedgerEvent::Deployed { htlc_location, transaction } => {
            match state {
                LedgerState::NotDeployed => Ok(
                    ApplyOutcome::Advanced(
                        LedgerState::Deployed { htlc_location, deploy_transaction: transaction },
                    ),
                ),
                _ => Err(ApplyError::DuplicateEvent),
            }
        },
        LedgerEvent::Funded { htlc_location, transaction, correctly } => {
            match state {
                LedgerState::NotDeployed => {
                    if correctly {
                        Ok(
                            ApplyOutcome::Advanced(
                                LedgerState::Funded {
                                    htlc_location,
                                    deploy_transaction: transaction,
                                    fund_transaction: transaction,
                                },
                            ),
                        )
                    } else {
                        Ok(
                            ApplyOutcome::Advanced(
                                LedgerState::IncorrectlyFunded {
                                    htlc_location,
                                    deploy_transaction: transaction,
                                    fund_transaction: transaction,
                                },
                            ),
                        )
                    }
                },
                LedgerState::Deployed { deploy_transaction, .. } => {
                    if correctly {
                        Ok(
                            ApplyOutcome::Advanced(
                                LedgerState::Funded {
                                    htlc_location,
                                    deploy_transaction: *deploy_transaction,
                                    fund_transaction: transaction,
                                },
                            ),
                        )
                    } else {
                        Ok(
                            ApplyOutcome::Advanced(
                                LedgerState::IncorrectlyFunded {
                                    htlc_location,
                                    deploy_transaction: *deploy_transaction,
                                    fund_transaction: transaction,
                                },
                            ),
                        )
                    }
                },
                _ => Err(ApplyError::DuplicateEvent),
            }
        },
        LedgerEvent::Redeemed { transaction, secret } => {
            if !secret_hash.matches(&secret) {
                Err(ApplyError::ProtocolViolation)
            } else {
                Ok(
                    ApplyOutcome::Advanced(
                        LedgerState::Redeemed { redeem_transaction: transaction, secret },
                    ),
                )
            }
        },
        LedgerEvent::Refunded { transaction } => {
            Ok(ApplyOutcome::Advanced(LedgerState::Refunded { refund_transaction: transaction }))
        },
    }
}

/// Every accepted transition moves strictly up the state order:
/// observed progress never regresses.
pub proof fn lemma_apply_monotone<L, T>(
    state: LedgerState<L, T>,
    event: LedgerEvent<L, T>,
    secret_hash: Seq<u8>,
)
    ensures
        apply_spec(state, event, secret_hash) matches Ok(ApplyOutcome::Advanced(next))
            ==> state_rank(next) > state_rank(state),
{
}

/// A `Funded` observation classified incorrect never advances a leg to
/// `Funded`; whatever the prior state, the leg lands in
/// `IncorrectlyFunded` or the observation is rejected or stale.
pub proof fn lemma_funding_gate<L, T>(
    state: LedgerState<L, T>,
    event: LedgerEvent<L, T>,
    secret_hash: Seq<u8>,
)
    requires
        event matches LedgerEvent::Funded { correctly, .. } && !correctly,
    ensures
        apply_spec(state, event, secret_hash) matches Ok(ApplyOutcome::Advanced(next)) ==> next
            is IncorrectlyFunded,
{
}

/// The state a sequence of observations leaves a leg in: accepted
/// observations advance it, rejected and stale ones leave it alone.
pub open spec fn apply_all<L, T>(
    state: LedgerState<L, T>,
    events: Seq<LedgerEvent<L, T>>,
    secret_hash: Seq<u8>,
) -> LedgerState<L, T>
    decreases events.len(),
{
    if events.len() == 0 {
        state
    } else {
        let next = match apply_spec(state, events.first(), secret_hash) {
            Ok(ApplyOutcome::Advanced(s2)) => s2,
            _ => state,
        };
        apply_all(next, events.drop_first(), secret_hash)
    }
}

/// Monotonicity over whole runs: however many observations are folded
/// in, and in whatever order they arrive, the resulting state never
/// ranks below the starting one.
pub proof fn lemma_apply_all_monotone<L, T>(
    state: LedgerState<L, T>,
    events: Seq<LedgerEvent<L, T>>,
    secret_hash: Seq<u8>,
)
    ensures
        state_rank(apply_all(state, events, secret_hash)) >= state_rank(state),
    decreases events.len(),
{
    if events.len() > 0 {
        let next = match apply_spec(state, events.first(), secret_hash) {
            Ok(ApplyOutcome::Advanced(s2)) => s2,
            _ => state,
        };
        lemma_apply_monotone(state, events.first(), secret_hash);
        lemma_apply_all_monotone(next, events.drop_first(), secret_hash);
    }
}

/// The HTLC location a state reflects, while one is known.
pub open spec fn spec_htlc_location<L, T>(s: LedgerState<L, T>) -> Option<L> {
    match s {
        LedgerState::Deployed { htlc_location, .. } => Some(htlc_location),
        LedgerState::Funded { htlc_location, .. } => Some(htlc_location),
        LedgerState::IncorrectlyFunded { htlc_location, .. } => Some(htlc_location),
        _ => None,
    }
}

/// The funding transaction a state reflects, if one was observed.
pub open spec fn spec_fund_transaction<L, T>(s: LedgerState<L, T>) -> Option<T> {
    match s {
        LedgerState::Funded { fund_transaction, .. } => Some(fund_transaction),
        LedgerState::IncorrectlyFunded { fund_transaction, .. } => Some(fund_transaction),
        _ => None,
    }
}

/// Tolerance of delivery order: the deploy and fund observations of
/// one leg may reach a fresh leg in either order. Both orders leave
/// the leg in the same kind of state, at the same location, with the
/// same funding transaction — the one difference is the implied deploy
/// transaction, which a funding observed first backfills with itself.
pub proof fn lemma_delivery_order_tolerated<L, T>(
    deploy_location: L,
    deploy_transaction: T,
    fund_location: L,
    fund_transaction: T,
    correctly: bool,
    secret_hash: Seq<u8>,
)
    ensures
        ({
            let deploy = LedgerEvent::Deployed {
                htlc_location: deploy_location,
                transaction: deploy_transaction,
            };
            let fund = LedgerEvent::Funded {
                htlc_location: fund_location,
                transaction: fund_transaction,
                correctly,
            };
            let s12 = apply_all(LedgerState::NotDeployed, seq![deploy, fund], secret_hash);
            let s21 = apply_all(LedgerState::NotDeployed, seq![fund, deploy], secret_hash);
            &&& state_rank(s12) == state_rank(s21)
            &&& (s12 is Funded <==> s21 is Funded)
            &&& (s12 is IncorrectlyFunded <==> s21 is IncorrectlyFunded)
            &&& spec_htlc_location(s12) == spec_htlc_location(s21)
            &&& spec_fund_transaction(s12) == spec_fund_transaction(s21)
        }),
{
    let deploy = LedgerEvent::<L, T>::Deployed {
        htlc_location: deploy_location,
        transaction: deploy_transaction,
    };
    let fund = LedgerEvent::<L, T>::Funded {
        htlc_location: fund_location,
        transaction: fund_transaction,
        correctly,
    };
    let events12 = seq![deploy, fund];
    let events21 = seq![fund, deploy];
    assert(events12.first() == deploy);
    assert(events12.drop_first() =~= seq![fund]);
    assert(events21.first() == fund);
    assert(events21.drop_first() =~= seq![deploy]);
    assert(seq![fund].first() == fund);
    assert(seq![deploy].first() == deploy);
    assert(seq![fund].drop_first() =~= Seq::<LedgerEvent<L, T>>::empty());
    assert(seq![deploy].drop_first() =~= Seq::<LedgerEvent<L, T>>::empty());

    let after_deploy = LedgerState::<L, T>::Deployed {
        htlc_location: deploy_location,
        deploy_transaction,
    };
    let s12 = if correctly {
        LedgerState::<L, T>::Funded {
            htlc_location: fund_location,
            deploy_transaction,
            fund_transaction,
        }
    } else {
        LedgerState::<L, T>::IncorrectlyFunded {
            htlc_location: fund_location,
            deploy_transaction,
            fund_transaction,
        }
    };
    let s21 = if correctly {
        LedgerState::<L, T>::Funded {
            htlc_location: fund_location,
            deploy_transaction: fund_transaction,
            fund_transaction,
        }
    } else {
        LedgerState::<L, T>::IncorrectlyFunded {
            htlc_location: fund_location,
            deploy_transaction: fund_transaction,
            fund_transaction,
        }
    };
    assert(apply_all(LedgerState::NotDeployed, events12, secret_hash) == apply_all(
        after_deploy,
        seq![fund],
        secret_hash,
    ));
    assert(apply_all(after_deploy, seq![fund], secret_hash) == apply_all(
        s12,
        Seq::<LedgerEvent<L, T>>::empty(),
        secret_hash,
    ));
    assert(apply_all(s12, Seq::<LedgerEvent<L, T>>::empty(), secret_hash) == s12);
    assert(apply_all(LedgerState::NotDeployed, events21, secret_hash) == apply_all(
        s21,
        seq![deploy],
        secret_hash,
    ));
    assert(apply_spec(s21, deploy, secret_hash) == Err::<ApplyOutcome<L, T>, ApplyError>(
        ApplyError::DuplicateEvent,
    ));
    assert(apply_all(s21, seq![deploy], secret_hash) == apply_all(
        s21,
        Seq::<LedgerEvent<L, T>>::empty(),
        secret_hash,
    ));
    assert(apply_all(s21, Seq::<LedgerEvent<L, T>>::empty(), secret_hash) == s21);
}

/// Terminal states are absorbing: once a leg is redeemed or refunded,
/// no run of further observations moves it anywhere.
pub proof fn lemma_terminal_absorbing<L, T>(
    state: LedgerState<L, T>,
    events: Seq<LedgerEvent<L, T>>,
    secret_hash: Seq<u8>,
)
    requires
        spec_is_terminal(state),
    ensures
        apply_all(state, events, secret_hash) == state,
    decreases events.len(),
{
    if events.len() > 0 {
        lemma_terminal_absorbing(state, events.drop_first(), secret_hash);
    }
}

} // verus!
