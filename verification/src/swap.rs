//! One swap instance: its negotiation state and the observed state of
//! both legs, with the fold of watcher observations into them.

use vstd::prelude::*;

use crate::actions::{
    actions, actions_spec, params_well_formed, Action, SwapCommunication, SwapParams,
};
use crate::secret::{Secret, SecretHash};
use crate::state::{apply, apply_spec, ApplyError, ApplyOutcome, LedgerState};
use crate::types::{bytes_eq, EthAddress, EthHash, OutPoint, SwapId, Txid};
use crate::{Role, Side};

verus! {

/// Why a negotiation step was refused.
#[derive(Clone, Copy, Debug, PartialEq, Eq, Structural)]
pub enum NegotiationError {
    /// The negotiation was already settled; it is never re-opened.
    AlreadySettled,
    /// The two legs' parameters carry different secret hashes; such an
    /// agreement locks nothing and is refused.
    MismatchedSecretHashes,
}

/// The state of one leg, tagged by which leg it is.
#[derive(Clone, Copy, Debug)]
pub enum SideState {
    Alpha(LedgerState<OutPoint, Txid>),
    Beta(LedgerState<EthAddress, EthHash>),
}

/// One swap: negotiation state plus the independently evolving state
/// of both legs.
#[derive(Clone, Copy, Debug)]
pub struct Swap {
    pub id: SwapId,
    pub role: Role,
    pub communication: SwapCommunication,
    pub alpha: LedgerState<OutPoint, Txid>,
    pub beta: LedgerState<EthAddress, EthHash>,
}

impl Swap {
    /// Whatever was agreed locks both legs under one secret hash.
    pub open spec fn wf(&self) -> bool {
        self.communication matches SwapCommunication::Accepted { params } ==> params_well_formed(
            params,
        )
    }

    /// A freshly proposed swap: response pending, nothing observed.
    pub fn new(id: SwapId, role: Role) -> (r: Swap)
        ensures
            r.id == id,
            r.role == role,
            r.communication is Proposed,
            r.alpha is NotDeployed,
            r.beta is NotDeployed,
            r.wf(),
    {
        Swap {
            id,
            role,
            communication: SwapCommunication::Proposed,
            alpha: LedgerState::NotDeployed,
            beta: LedgerState::NotDeployed,
        }
    }

    /// Settles the negotiation with the agreed parameters. Succeeds
    /// exactly once, on a pending proposal whose two legs carry the
    /// same secret hash; the agreement is never re-opened.
    pub fn accept(&mut self, params: SwapParams) -> (r: Result<(), NegotiationError>)
        requires
            old(self).wf(),
        ensures
            final(self).wf(),
            r is Ok <==> old(self).communication is Proposed && params_well_formed(params),
            r is Ok ==> final(self).communication == (SwapCommunication::Accepted { params }),
            r == Err::<(), NegotiationError>(NegotiationError::AlreadySettled) <==> !(old(self).communication is Proposed),
            r is Err ==> final(self).communication == old(self).communication,
            final(self).id == old(self).id && final(self).role == old(self).role,
            final(self).alpha == old(self).alpha && final(self).beta == old(self).beta,
    {
        match self.communication {
            SwapCommunication::Proposed => {
                if !bytes_eq(&params.alpha.secret_hash.bytes, &params.beta.secret_hash.bytes) {
                    return Err(NegotiationError::MismatchedSecretHashes);
                }
                self.communication = SwapCommunication::Accepted { params };
                Ok(())
            },
            _ => Err(NegotiationError::AlreadySettled),
        }
    }

    /// Declines the proposal. Succeeds exactly once, on a pending
    /// proposal.
    pub fn reject(&mut self) -> (r: Result<(), NegotiationError>)
        requires
            old(self).wf(),
        ensures
            final(self).wf(),
            r is Ok <==> old(self).communication is Proposed,
            r is Ok ==> final(self).communication is Rejected,
            r is Err ==> final(self).communication == old(self).communication,
            final(self).id == old(self).id && final(self).role == old(self).role,
            final(self).alpha == old(self).alpha && final(self).beta == old(self).beta,
    {
        match self.communication {
            SwapCommunication::Proposed => {
                self.communication = SwapCommunication::Rejected;
                Ok(())
            },
            _ => Err(NegotiationError::AlreadySettled),
        }
    }

    /// The secret hash locking both legs, once the swap is accepted.
    pub fn secret_hash(&self) -> (r: Option<SecretHash>)
        ensures
            r is Some <==> self.communication is Accepted,
            self.communication matches SwapCommunication::Accepted { params } ==> r == Some(
                params.beta.secret_hash,
            ),
    {
        match &self.communication {
            SwapCommunication::Accepted { params } => Some(params.beta.secret_hash),
            _ => None,
        }
    }

    /// Folds an alpha-leg observation into the swap. Watchers exist
    /// only for accepted swaps, whose HTLC parameters they scan for,
    /// so an observation before acceptance cannot arise.
    pub fn apply_alpha(&mut self, event: LedgerEvent) -> (r: Result<
        ApplyOutcome<OutPoint, Txid>,
        ApplyError,
    >)
        requires
            old(self).wf(),
            old(self).communication is Accepted,
        ensures
            final(self).wf(),
            r == apply_spec(
                old(self).alpha,
                event,
                spec_agreed_hash(old(self).communication),
            ),
            r matches Ok(ApplyOutcome::Advanced(s2)) ==> final(self).alpha == s2,
            !(r matches Ok(ApplyOutcome::Advanced(_))) ==> final(self).alpha == old(self).alpha,
            final(self).id == old(self).id && final(self).role == old(self).role,
            final(self).communication == old(self).communication,
            final(self).beta == old(self).beta,
    {
        let hash = match &self.communication {
            SwapCommunication::Accepted { params } => params.alpha.secret_hash,
            _ => unreached(),
        };
        let r = apply(&self.alpha, event, &hash);
        if let Ok(ApplyOutcome::Advanced(s2)) = &r {
            self.alpha = *s2;
        }
        r
    }

    /// Folds a beta-leg observation into the swap; see `apply_alpha`.
    pub fn apply_beta(&mut self, event: BetaLedgerEvent) -> (r: Result<
        ApplyOutcome<EthAddress, EthHash>,
        ApplyError,
    >)
        requires
            old(self).wf(),
            old(self).communication is Accepted,
        ensures
            final(self).wf(),
            r == apply_spec(old(self).beta, event, spec_agreed_hash(old(self).communication)),
            r matches Ok(ApplyOutcome::Advanced(s2)) ==> final(self).beta == s2,
            !(r matches Ok(ApplyOutcome::Advanced(_))) ==> final(self).beta == old(self).beta,
            final(self).id == old(self).id && final(self).role == old(self).role,
            final(self).communication == old(self).communication,
            final(self).alpha == old(self).alpha,
    {
        let hash = match &self.communication {
            SwapCommunication::Accepted { params } => params.beta.secret_hash,
            _ => unreached(),
        };
        let r = apply(&self.beta, event, &hash);
        if let Ok(ApplyOutcome::Advanced(s2)) = &r {
            self.beta = *s2;
        }
        r
    }

    /// The observed state of one leg, read-only.
    pub fn current_ledger_state(&self, side: Side) -> (r: SideState)
        ensures
            side is Alpha ==> r == SideState::Alpha(self.alpha),
            side is Beta ==> r == SideState::Beta(self.beta),
    {
        match side {
            Side::Alpha => SideState::Alpha(self.alpha),
            Side::Beta => SideState::Beta(self.beta),
        }
    }

    /// The negotiation state, read-only.
    pub fn current_communication(&self) -> (r: SwapCommunication)
        ensures
            r == self.communication,
    {
        self.communication
    }

    /// The actions the local party should take now: a pure projection
    /// of the swap's current state, safe to call at any rate.
    pub fn next_actions(&self, secret: Option<Secret>) -> (r: Vec<Action>)
        ensures
            r@ == actions_spec(self.role, self.communication, self.alpha, self.beta, secret),
    {
        actions(self.role, &self.communication, &self.alpha, &self.beta, secret)
    }
}

/// The secret hash an accepted agreement locks the legs under. Both
/// legs carry the same one in a well-formed swap; this reads the
/// alpha leg's.
pub open spec fn spec_agreed_hash(comm: SwapCommunication) -> Seq<u8> {
    match comm {
        SwapCommunication::Accepted { params } => params.alpha.secret_hash@,
        _ => Seq::<u8>::empty(),
    }
}

/// An alpha-leg observation.
pub type LedgerEvent = crate::state::LedgerEvent<OutPoint, Txid>;

/// A beta-leg observation.
pub type BetaLedgerEvent = crate::state::LedgerEvent<EthAddress, EthHash>;

} // verus!
