//! The read-only query surface over the running swaps: the status
//! layer polls it at any rate, keyed by swap id. Asking about an
//! unknown id is surfaced as such and never creates anything.

use vstd::pervasive::VecAdditionalExecFns;
use vstd::prelude::*;

use crate::actions::{actions_spec, Action, SwapCommunication};
use crate::secret::Secret;
use crate::swap::{SideState, Swap};
use crate::types::SwapId;
use crate::Side;

verus! {

/// Why a facade operation failed.
#[derive(Clone, Copy, Debug, PartialEq, Eq, Structural)]
pub enum FacadeError {
    /// No swap runs under this id; a swap is never created implicitly.
    UnknownSwap,
    /// A swap already runs under this id.
    SwapAlreadyExists,
}

/// The index of the swap with this id, if one runs.
pub open spec fn spec_find_swap(swaps: Seq<Swap>, id: SwapId) -> Option<int>
    decreases swaps.len(),
{
    if swaps.len() == 0 {
        None
    } else if swaps.first().id == id {
        Some(0)
    } else {
        match spec_find_swap(swaps.drop_first(), id) {
            Some(i) => Some(i + 1),
            None => None,
        }
    }
}

/// The set of running swaps, keyed by swap id.
#[derive(Debug)]
pub struct Facade {
    swaps: Vec<Swap>,
}

impl Facade {
    /// The running swaps, in insertion order.
    pub closed spec fn view(&self) -> Seq<Swap> {
        self.swaps@
    }

    /// Each swap id keys at most one running swap, and each swap is
    /// well-formed.
    pub open spec fn wf(&self) -> bool {
        &&& forall|i: int, j: int|
            0 <= i < j < self@.len() ==> #[trigger] self@[i].id != #[trigger] self@[j].id
        &&& forall|i: int| 0 <= i < self@.len() ==> (#[trigger] self@[i]).wf()
    }

    pub fn new() -> (r: Facade)
        ensures
            r@ =~= Seq::<Swap>::empty(),
            r.wf(),
    {
        Facade { swaps: Vec::new() }
    }

    fn find_index(&self, id: SwapId) -> (r: Option<usize>)
        ensures
            r matches Some(i) ==> spec_find_swap(self@, id) == Some(i as int) && i < self@.len()
                && self@[i as int].id == id,
            r is None <==> spec_find_swap(self@, id) is None,
    {
        let n = self.swaps.len();
        let mut i: usize = 0;
        while i < n
            invariant
                n == self@.len(),
                i <= n,
                forall|j: int| 0 <= j < i ==> #[trigger] self@[j].id != id,
            decreases n - i,
        {
            if self.swaps[i].id.value == id.value {
                proof {
                    lemma_find_swap_at(self@, id, i as int);
                }
                return Some(i);
            }
            i = i + 1;
        }
        proof {
            lemma_find_swap_none(self@, id);
        }
        None
    }

    /// Starts tracking a swap. Each id is tracked exactly once.
    pub fn insert(&mut self, swap: Swap) -> (r: Result<(), FacadeError>)
        requires
            old(self).wf(),
            swap.wf(),
        ensures
            final(self).wf(),
            r is Ok <==> spec_find_swap(old(self)@, swap.id) is None,
            r is Ok ==> final(self)@ =~= old(self)@.push(swap),
            r is Err ==> final(self)@ == old(self)@ && r == Err::<(), FacadeError>(
                FacadeError::SwapAlreadyExists,
            ),
    {
        match self.find_index(swap.id) {
            Some(_) => Err(FacadeError::SwapAlreadyExists),
            None => {
                proof {
                    lemma_find_swap_none_means_absent(self@, swap.id);
                }
                self.swaps.push(swap);
                Ok(())
            },
        }
    }

    /// The tracked swap under this id, to fold an observation into and
    /// put back.
    pub fn get(&self, id: SwapId) -> (r: Result<Swap, FacadeError>)
        ensures
            r matches Ok(s) ==> spec_find_swap(self@, id) matches Some(i) && s == self@[i],
            r is Err <==> spec_find_swap(self@, id) is None,
    {
        match self.find_index(id) {
            Some(i) => Ok(self.swaps[i]),
            None => Err(FacadeError::UnknownSwap),
        }
    }

    /// Replaces the tracked swap under this id, after observations
    /// were folded into it. The id of the swap itself never changes.
    pub fn put_back(&mut self, swap: Swap) -> (r: Result<(), FacadeError>)
        requires
            old(self).wf(),
            swap.wf(),
        ensures
            final(self).wf(),
            r is Ok <==> spec_find_swap(old(self)@, swap.id) is Some,
            r matches Ok(_) ==> spec_find_swap(old(self)@, swap.id) matches Some(i)
                && final(self)@ =~= old(self)@.update(i, swap),
            r is Err ==> final(self)@ == old(self)@,
    {
        match self.find_index(swap.id) {
            Some(i) => {
                self.swaps.set(i, swap);
                proof {
                    assert forall|a: int, b: int|
                        0 <= a < b < self@.len() implies #[trigger] self@[a].id
                        != #[trigger] self@[b].id by {
                        assert(old(self)@[a].id == self@[a].id || a == i as int);
                        assert(old(self)@[b].id == self@[b].id || b == i as int);
                    }
                }
                Ok(())
            },
            None => Err(FacadeError::UnknownSwap),
        }
    }

    /// The observed state of one leg of one swap; read-only, safe to
    /// poll at any rate.
    pub fn current_ledger_state(&self, swap_id: SwapId, side: Side) -> (r: Result<
        SideState,
        FacadeError,
    >)
        ensures
            r is Err <==> spec_find_swap(self@, swap_id) is None,
            r matches Ok(s) ==> spec_find_swap(self@, swap_id) matches Some(i) && (match side {
                Side::Alpha => s == SideState::Alpha(self@[i].alpha),
                Side::Beta => s == SideState::Beta(self@[i].beta),
            }),
    {
        match self.get(swap_id) {
            Ok(swap) => Ok(swap.current_ledger_state(side)),
            Err(e) => Err(e),
        }
    }

    /// The negotiation state of one swap; read-only.
    pub fn current_communication(&self, swap_id: SwapId) -> (r: Result<
        SwapCommunication,
        FacadeError,
    >)
        ensures
            r is Err <==> spec_find_swap(self@, swap_id) is None,
            r matches Ok(c) ==> spec_find_swap(self@, swap_id) matches Some(i) && c
                == self@[i].communication,
    {
        match self.get(swap_id) {
            Ok(swap) => Ok(swap.current_communication()),
            Err(e) => Err(e),
        }
    }

    /// The actions one swap asks of the local party right now: a pure
    /// projection of its current state, safe to poll at any rate.
    pub fn actions(&self, swap_id: SwapId, secret: Option<Secret>) -> (r: Result<
        Vec<Action>,
        FacadeError,
    >)
        ensures
            r is Err <==> spec_find_swap(self@, swap_id) is None,
            r matches Ok(v) ==> spec_find_swap(self@, swap_id) matches Some(i) && v@
                == actions_spec(
                self@[i].role,
                self@[i].communication,
                self@[i].alpha,
                self@[i].beta,
                secret,
            ),
    {
        match self.get(swap_id) {
            Ok(swap) => Ok(swap.next_actions(secret)),
            Err(e) => Err(e),
        }
    }
}

proof fn lemma_find_swap_at(swaps: Seq<Swap>, id: SwapId, i: int)
    requires
        0 <= i < swaps.len(),
        swaps[i].id == id,
        forall|j: int| 0 <= j < i ==> #[trigger] swaps[j].id != id,
    ensures
        spec_find_swap(swaps, id) == Some(i),
    decreases i,
{
    if i > 0 {
        lemma_find_swap_at(swaps.drop_first(), id, i - 1);
    }
}

proof fn lemma_find_swap_none(swaps: Seq<Swap>, id: SwapId)
    requires
        forall|j: int| 0 <= j < swaps.len() ==> #[trigger] swaps[j].id != id,
    ensures
        spec_find_swap(swaps, id) is None,
    decreases swaps.len(),
{
    if swaps.len() > 0 {
        lemma_find_swap_none(swaps.drop_first(), id);
    }
}

proof fn lemma_find_swap_none_means_absent(swaps: Seq<Swap>, id: SwapId)
    requires
        spec_find_swap(swaps, id) is None,
    ensures
        forall|j: int| 0 <= j < swaps.len() ==> #[trigger] swaps[j].id != id,
    decreases swaps.len(),
{
    if swaps.len() > 0 {
        lemma_find_swap_none_means_absent(swaps.drop_first(), id);
        assert forall|j: int| 0 <= j < swaps.len() implies #[trigger] swaps[j].id != id by {
            if j > 0 {
                assert(swaps.drop_first()[j - 1] == swaps[j]);
            }
        }
    }
}

} // verus!
