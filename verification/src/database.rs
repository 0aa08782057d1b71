//! The persistence projection: one durable record per swap, holding
//! the agreed parameters, the negotiation state, and at most one
//! stored instance of each event kind per leg. `save` is append-only
//! and at-most-once: a second write of the same kind is a hard error,
//! never a silent merge. On restart the stored events are folded back
//! through the state machine to resume a swap.

use vstd::pervasive::VecAdditionalExecFns;
use vstd::prelude::*;

use crate::actions::SwapCommunication;
use crate::asset::{Erc20, Erc20Quantity};
use crate::hbit;
use crate::herc20;
use crate::secret::Secret;
use crate::types::{ChainId, EthAddress, EthHash, SwapId, Timestamp};
use crate::Role;

verus! {

/// Stored form of a herc20 deploy event.
#[derive(Clone, Copy, Debug)]
pub struct Herc20Deployed {
    pub transaction: EthHash,
    pub location: EthAddress,
}

impl From<Herc20Deployed> for herc20::Deployed {
    fn from(event: Herc20Deployed) -> (r: herc20::Deployed) {
        herc20::Deployed { transaction: event.transaction, location: event.location }
    }
}

impl vstd::std_specs::convert::FromSpecImpl<Herc20Deployed> for herc20::Deployed {
    open spec fn obeys_from_spec() -> bool {
        true
    }

    open spec fn from_spec(event: Herc20Deployed) -> herc20::Deployed {
        herc20::Deployed { transaction: event.transaction, location: event.location }
    }
}

impl From<herc20::Deployed> for Herc20Deployed {
    fn from(event: herc20::Deployed) -> (r: Herc20Deployed) {
        Herc20Deployed { transaction: event.transaction, location: event.location }
    }
}

impl vstd::std_specs::convert::FromSpecImpl<herc20::Deployed> for Herc20Deployed {
    open spec fn obeys_from_spec() -> bool {
        true
    }

    open spec fn from_spec(event: herc20::Deployed) -> Herc20Deployed {
        Herc20Deployed { transaction: event.transaction, location: event.location }
    }
}

/// Stored form of a herc20 fund event.
#[derive(Clone, Copy, Debug)]
pub struct Herc20Funded {
    pub transaction: EthHash,
}

impl From<herc20::Funded> for Herc20Funded {
    fn from(event: herc20::Funded) -> (r: Herc20Funded) {
        Herc20Funded { transaction: event.transaction }
    }
}

impl vstd::std_specs::convert::FromSpecImpl<herc20::Funded> for Herc20Funded {
    open spec fn obeys_from_spec() -> bool {
        true
    }

    open spec fn from_spec(event: herc20::Funded) -> Herc20Funded {
        Herc20Funded { transaction: event.transaction }
    }
}

/// Stored form of a herc20 redeem event, with the revealed secret.
#[derive(Clone, Copy, Debug)]
pub struct Herc20Redeemed {
    pub transaction: EthHash,
    pub secret: Secret,
}

impl From<Herc20Redeemed> for herc20::Redeemed {
    fn from(event: Herc20Redeemed) -> (r: herc20::Redeemed) {
        herc20::Redeemed { transaction: event.transaction, secret: event.secret }
    }
}

impl vstd::std_specs::convert::FromSpecImpl<Herc20Redeemed> for herc20::Redeemed {
    open spec fn obeys_from_spec() -> bool {
        true
    }

    open spec fn from_spec(event: Herc20Redeemed) -> herc20::Redeemed {
        herc20::Redeemed { transaction: event.transaction, secret: event.secret }
    }
}

impl From<herc20::Redeemed> for Herc20Redeemed {
    fn from(event: herc20::Redeemed) -> (r: Herc20Redeemed) {
        Herc20Redeemed { transaction: event.transaction, secret: event.secret }
    }
}

impl vstd::std_specs::convert::FromSpecImpl<herc20::Redeemed> for Herc20Redeemed {
    open spec fn obeys_from_spec() -> bool {
        true
    }

    open spec fn from_spec(event: herc20::Redeemed) -> Herc20Redeemed {
        Herc20Redeemed { transaction: event.transaction, secret: event.secret }
    }
}

/// Stored form of a herc20 refund event.
#[derive(Clone, Copy, Debug)]
pub struct Herc20Refunded {
    pub transaction: EthHash,
}

impl From<Herc20Refunded> for herc20::Refunded {
    fn from(event: Herc20Refunded) -> (r: herc20::Refunded) {
        herc20::Refunded { transaction: event.transaction }
    }
}

impl vstd::std_specs::convert::FromSpecImpl<Herc20Refunded> for herc20::Refunded {
    open spec fn obeys_from_spec() -> bool {
        true
    }

    open spec fn from_spec(event: Herc20Refunded) -> herc20::Refunded {
        herc20::Refunded { transaction: event.transaction }
    }
}

impl From<herc20::Refunded> for Herc20Refunded {
    fn from(event: herc20::Refunded) -> (r: Herc20Refunded) {
        Herc20Refunded { transaction: event.transaction }
    }
}

impl vstd::std_specs::convert::FromSpecImpl<herc20::Refunded> for Herc20Refunded {
    open spec fn obeys_from_spec() -> bool {
        true
    }

    open spec fn from_spec(event: herc20::Refunded) -> Herc20Refunded {
        Herc20Refunded { transaction: event.transaction }
    }
}

/// Stored form of an ERC20 asset.
#[derive(Clone, Copy, Debug)]
pub struct Erc20Asset {
    pub token_contract: EthAddress,
    pub quantity: Erc20Quantity,
}

impl From<Erc20Asset> for Erc20 {
    fn from(asset: Erc20Asset) -> (r: Erc20) {
        Erc20 { token_contract: asset.token_contract, quantity: asset.quantity }
    }
}

impl vstd::std_specs::convert::FromSpecImpl<Erc20Asset> for Erc20 {
    open spec fn obeys_from_spec() -> bool {
        true
    }

    open spec fn from_spec(asset: Erc20Asset) -> Erc20 {
        Erc20 { token_contract: asset.token_contract, quantity: asset.quantity }
    }
}

impl From<Erc20> for Erc20Asset {
    fn from(asset: Erc20) -> (r: Erc20Asset) {
        Erc20Asset { token_contract: asset.token_contract, quantity: asset.quantity }
    }
}

impl vstd::std_specs::convert::FromSpecImpl<Erc20> for Erc20Asset {
    open spec fn obeys_from_spec() -> bool {
        true
    }

    open spec fn from_spec(asset: Erc20) -> Erc20Asset {
        Erc20Asset { token_contract: asset.token_contract, quantity: asset.quantity }
    }
}

/// Stored form of the herc20 leg's parameters.
#[derive(Clone, Copy, Debug)]
pub struct Params {
    pub asset: Erc20Asset,
    pub redeem_identity: EthAddress,
    pub refund_identity: EthAddress,
    pub expiry: Timestamp,
    pub secret_hash: crate::secret::SecretHash,
    pub chain_id: ChainId,
}

impl From<Params> for herc20::Params {
    fn from(params: Params) -> (r: herc20::Params) {
        herc20::Params {
            asset: Erc20 {
                token_contract: params.asset.token_contract,
                quantity: params.asset.quantity,
            },
            redeem_identity: params.redeem_identity,
            refund_identity: params.refund_identity,
            expiry: params.expiry,
            secret_hash: params.secret_hash,
            chain_id: params.chain_id,
        }
    }
}

impl vstd::std_specs::convert::FromSpecImpl<Params> for herc20::Params {
    open spec fn obeys_from_spec() -> bool {
        true
    }

    open spec fn from_spec(params: Params) -> herc20::Params {
        herc20::Params {
            asset: Erc20 {
                token_contract: params.asset.token_contract,
                quantity: params.asset.quantity,
            },
            redeem_identity: params.redeem_identity,
            refund_identity: params.refund_identity,
            expiry: params.expiry,
            secret_hash: params.secret_hash,
            chain_id: params.chain_id,
        }
    }
}

impl From<herc20::Params> for Params {
    fn from(params: herc20::Params) -> (r: Params) {
        Params {
            asset: Erc20Asset {
                token_contract: params.asset.token_contract,
                quantity: params.asset.quantity,
            },
            redeem_identity: params.redeem_identity,
            refund_identity: params.refund_identity,
            expiry: params.expiry,
            secret_hash: params.secret_hash,
            chain_id: params.chain_id,
        }
    }
}

impl vstd::std_specs::convert::FromSpecImpl<herc20::Params> for Params {
    open spec fn obeys_from_spec() -> bool {
        true
    }

    open spec fn from_spec(params: herc20::Params) -> Params {
        Params {
            asset: Erc20Asset {
                token_contract: params.asset.token_contract,
                quantity: params.asset.quantity,
            },
            redeem_identity: params.redeem_identity,
            refund_identity: params.refund_identity,
            expiry: params.expiry,
            secret_hash: params.secret_hash,
            chain_id: params.chain_id,
        }
    }
}

/// An event to be recorded, of any kind on either leg.
#[derive(Clone, Copy, Debug)]
pub enum StoredEvent {
    Herc20Deployed(herc20::Deployed),
    Herc20Funded(herc20::Funded),
    Herc20Redeemed(herc20::Redeemed),
    Herc20Refunded(herc20::Refunded),
    HbitFunded(hbit::Funded),
    HbitRedeemed(hbit::Redeemed),
    HbitRefunded(hbit::Refunded),
}

/// Why a database operation failed.
#[derive(Clone, Copy, Debug, PartialEq, Eq, Structural)]
pub enum DatabaseError {
    /// An event of this kind is already stored for this swap and leg:
    /// the duplicate-event kind. Fatal for the write; the record is
    /// left as it was.
    AlreadyRecorded,
    /// No record exists under this swap id; a record is never created
    /// implicitly.
    UnknownSwap,
    /// A record already exists under this swap id.
    SwapAlreadyExists,
}

/// The durable record of one swap.
#[derive(Clone, Copy, Debug)]
pub struct SwapRecord {
    pub swap_id: SwapId,
    pub role: Role,
    pub communication: SwapCommunication,
    pub herc20_deployed: Option<Herc20Deployed>,
    pub herc20_funded: Option<Herc20Funded>,
    pub herc20_redeemed: Option<Herc20Redeemed>,
    pub herc20_refunded: Option<Herc20Refunded>,
    pub hbit_funded: Option<hbit::Funded>,
    pub hbit_redeemed: Option<hbit::Redeemed>,
    pub hbit_refunded: Option<hbit::Refunded>,
}

impl SwapRecord {
    /// A fresh record: parameters and negotiation state only, no
    /// events observed.
    pub fn new(swap_id: SwapId, role: Role, communication: SwapCommunication) -> (r: SwapRecord)
        ensures
            r.swap_id == swap_id,
            r.role == role,
            r.communication == communication,
            r.herc20_deployed is None && r.herc20_funded is None && r.herc20_redeemed is None
                && r.herc20_refunded is None,
            r.hbit_funded is None && r.hbit_redeemed is None && r.hbit_refunded is None,
    {
        SwapRecord {
            swap_id,
            role,
            communication,
            herc20_deployed: None,
            herc20_funded: None,
            herc20_redeemed: None,
            herc20_refunded: None,
            hbit_funded: None,
            hbit_redeemed: None,
            hbit_refunded: None,
        }
    }
}

/// Whether the record still has room for this event kind: each kind is
/// stored at most once per swap per leg.
pub open spec fn event_slot_free(rec: SwapRecord, event: StoredEvent) -> bool {
    match event {
        StoredEvent::Herc20Deployed(_) => rec.herc20_deployed is None,
        StoredEvent::Herc20Funded(_) => rec.herc20_funded is None,
        StoredEvent::Herc20Redeemed(_) => rec.herc20_redeemed is None,
        StoredEvent::Herc20Refunded(_) => rec.herc20_refunded is None,
        StoredEvent::HbitFunded(_) => rec.hbit_funded is None,
        StoredEvent::HbitRedeemed(_) => rec.hbit_redeemed is None,
        StoredEvent::HbitRefunded(_) => rec.hbit_refunded is None,
    }
}

/// The record with the event written into its slot; everything else is
/// untouched.
pub open spec fn record_saved(rec: SwapRecord, event: StoredEvent) -> SwapRecord {
    match event {
        StoredEvent::Herc20Deployed(e) => SwapRecord {
            herc20_deployed: Some(
                Herc20Deployed { transaction: e.transaction, location: e.location },
            ),
            ..rec
        },
        StoredEvent::Herc20Funded(e) => SwapRecord {
            herc20_funded: Some(Herc20Funded { transaction: e.transaction }),
            ..rec
        },
        StoredEvent::Herc20Redeemed(e) => SwapRecord {
            herc20_redeemed: Some(Herc20Redeemed { transaction: e.transaction, secret: e.secret }),
            ..rec
        },
        StoredEvent::Herc20Refunded(e) => SwapRecord {
            herc20_refunded: Some(Herc20Refunded { transaction: e.transaction }),
            ..rec
        },
        StoredEvent::HbitFunded(e) => SwapRecord { hbit_funded: Some(e), ..rec },
        StoredEvent::HbitRedeemed(e) => SwapRecord { hbit_redeemed: Some(e), ..rec },
        StoredEvent::HbitRefunded(e) => SwapRecord { hbit_refunded: Some(e), ..rec },
    }
}

/// The index of the record with this swap id, if one exists.
pub open spec fn spec_find(swaps: Seq<SwapRecord>, id: SwapId) -> Option<int>
    decreases swaps.len(),
{
    if swaps.len() == 0 {
        None
    } else if swaps.first().swap_id == id {
        Some(0)
    } else {
        match spec_find(swaps.drop_first(), id) {
            Some(i) => Some(i + 1),
            None => None,
        }
    }
}

/// What `save` does: check-and-set against the swap's record in one
/// step. No record: `UnknownSwap`, nothing written. Slot taken:
/// `AlreadyRecorded`, nothing written. Otherwise the one slot is
/// written.
pub open spec fn spec_save(swaps: Seq<SwapRecord>, event: StoredEvent, id: SwapId) -> (Result<
    (),
    DatabaseError,
>, Seq<SwapRecord>) {
    match spec_find(swaps, id) {
        None => (Err(DatabaseError::UnknownSwap), swaps),
        Some(i) => {
            if event_slot_free(swaps[i], event) {
                (Ok(()), swaps.update(i, record_saved(swaps[i], event)))
            } else {
                (Err(DatabaseError::AlreadyRecorded), swaps)
            }
        },
    }
}

/// The in-memory projection of the per-swap records, keyed by swap id.
#[derive(Debug)]
pub struct Database {
    swaps: Vec<SwapRecord>,
}

impl Database {
    /// The stored records, in insertion order.
    pub closed spec fn view(&self) -> Seq<SwapRecord> {
        self.swaps@
    }

    /// Each swap id keys at most one record.
    pub open spec fn wf(&self) -> bool {
        forall|i: int, j: int|
            0 <= i < j < self@.len() ==> #[trigger] self@[i].swap_id != #[trigger] self@[j].swap_id
    }

    pub fn new() -> (r: Database)
        ensures
            r@ =~= Seq::<SwapRecord>::empty(),
            r.wf(),
    {
        Database { swaps: Vec::new() }
    }

    fn find_index(&self, id: SwapId) -> (r: Option<usize>)
        ensures
            r matches Some(i) ==> spec_find(self@, id) == Some(i as int) && i < self@.len()
                && self@[i as int].swap_id == id,
            r is None <==> spec_find(self@, id) is None,
    {
        let n = self.swaps.len();
        let mut i: usize = 0;
        while i < n
            invariant
                n == self@.len(),
                i <= n,
                forall|j: int| 0 <= j < i ==> #[trigger] self@[j].swap_id != id,
            decreases n - i,
        {
            if self.swaps[i].swap_id.value == id.value {
                proof {
                    lemma_spec_find_at(self@, id, i as int);
                }
                return Some(i);
            }
            i = i + 1;
        }
        proof {
            lemma_spec_find_none(self@, id);
        }
        None
    }

    /// Creates the record for a new swap. A record is created exactly
    /// once; an id already present is refused untouched.
    pub fn insert_swap(&mut self, record: SwapRecord) -> (r: Result<(), DatabaseError>)
        requires
            old(self).wf(),
        ensures
            final(self).wf(),
            r is Ok <==> spec_find(old(self)@, record.swap_id) is None,
            r is Ok ==> final(self)@ =~= old(self)@.push(record),
            r is Err ==> final(self)@ == old(self)@ && r == Err::<(), DatabaseError>(
                DatabaseError::SwapAlreadyExists,
            ),
    {
        match self.find_index(record.swap_id) {
            Some(_) => Err(DatabaseError::SwapAlreadyExists),
            None => {
                proof {
                    lemma_spec_find_none_means_absent(self@, record.swap_id);
                }
                self.swaps.push(record);
                Ok(())
            },
        }
    }

    /// Records an observed event exactly once; see `spec_save`.
    pub fn save(&mut self, event: StoredEvent, swap_id: SwapId) -> (r: Result<(), DatabaseError>)
        requires
            old(self).wf(),
        ensures
            final(self).wf(),
            (r, final(self)@) == spec_save(old(self)@, event, swap_id),
    {
        let idx = match self.find_index(swap_id) {
            None => {
                return Err(DatabaseError::UnknownSwap);
            },
            Some(i) => i,
        };
        let rec = self.swaps[idx];
        let slot_free = match event {
            StoredEvent::Herc20Deployed(_) => rec.herc20_deployed.is_none(),
            StoredEvent::Herc20Funded(_) => rec.herc20_funded.is_none(),
            StoredEvent::Herc20Redeemed(_) => rec.herc20_redeemed.is_none(),
            StoredEvent::Herc20Refunded(_) => rec.herc20_refunded.is_none(),
            StoredEvent::HbitFunded(_) => rec.hbit_funded.is_none(),
            StoredEvent::HbitRedeemed(_) => rec.hbit_redeemed.is_none(),
            StoredEvent::HbitRefunded(_) => rec.hbit_refunded.is_none(),
        };
        if !slot_free {
            return Err(DatabaseError::AlreadyRecorded);
        }
        let updated = match event {
            StoredEvent::Herc20Deployed(e) => SwapRecord {
                herc20_deployed: Some(
                    Herc20Deployed { transaction: e.transaction, location: e.location },
                ),
                ..rec
            },
            StoredEvent::Herc20Funded(e) => SwapRecord {
                herc20_funded: Some(Herc20Funded { transaction: e.transaction }),
                ..rec
            },
            StoredEvent::Herc20Redeemed(e) => SwapRecord {
                herc20_redeemed: Some(
                    Herc20Redeemed { transaction: e.transaction, secret: e.secret },
                ),
                ..rec
            },
            StoredEvent::Herc20Refunded(e) => SwapRecord {
                herc20_refunded: Some(Herc20Refunded { transaction: e.transaction }),
                ..rec
            },
            StoredEvent::HbitFunded(e) => SwapRecord { hbit_funded: Some(e), ..rec },
            StoredEvent::HbitRedeemed(e) => SwapRecord { hbit_redeemed: Some(e), ..rec },
            StoredEvent::HbitRefunded(e) => SwapRecord { hbit_refunded: Some(e), ..rec },
        };
        self.swaps.set(idx, updated);
        proof {
            assert(self@ =~= old(self)@.update(idx as int, record_saved(
                old(self)@[idx as int],
                event,
            )));
        }
        Ok(())
    }

    /// The ingestion point the watchers call: records an observed
    /// event with the same at-most-once contract as `save`.
    pub fn record(&mut self, event: StoredEvent, swap_id: SwapId) -> (r: Result<
        (),
        DatabaseError,
    >)
        requires
            old(self).wf(),
        ensures
            final(self).wf(),
            (r, final(self)@) == spec_save(old(self)@, event, swap_id),
    {
        self.save(event, swap_id)
    }

    /// The whole record of a swap, if one exists. Reading an unknown
    /// id is surfaced, never silently creates a record.
    pub fn load(&self, swap_id: SwapId) -> (r: Result<SwapRecord, DatabaseError>)
        ensures
            r matches Ok(rec) ==> spec_find(self@, swap_id) matches Some(i) && rec == self@[i],
            r is Err <==> spec_find(self@, swap_id) is None,
            r is Err ==> r == Err::<SwapRecord, DatabaseError>(DatabaseError::UnknownSwap),
    {
        match self.find_index(swap_id) {
            Some(i) => Ok(self.swaps[i]),
            None => Err(DatabaseError::UnknownSwap),
        }
    }

    /// The stored herc20 deploy event of a swap, if any was recorded.
    pub fn load_herc20_deployed(&self, swap_id: SwapId) -> (r: Result<
        Option<herc20::Deployed>,
        DatabaseError,
    >)
        ensures
            r matches Ok(ev) ==> spec_find(self@, swap_id) matches Some(i) && ev
                == spec_loaded_deployed(self@[i]),
            r is Err <==> spec_find(self@, swap_id) is None,
    {
        match self.load(swap_id) {
            Ok(rec) => match rec.herc20_deployed {
                Some(e) => Ok(
                    Some(herc20::Deployed { transaction: e.transaction, location: e.location }),
                ),
                None => Ok(None),
            },
            Err(e) => Err(e),
        }
    }

    /// The stored herc20 fund event of a swap, if any was recorded.
    pub fn load_herc20_funded(&self, swap_id: SwapId) -> (r: Result<
        Option<Herc20Funded>,
        DatabaseError,
    >)
        ensures
            r matches Ok(ev) ==> spec_find(self@, swap_id) matches Some(i) && ev
                == self@[i].herc20_funded,
            r is Err <==> spec_find(self@, swap_id) is None,
    {
        match self.load(swap_id) {
            Ok(rec) => Ok(rec.herc20_funded),
            Err(e) => Err(e),
        }
    }

    /// The stored herc20 redeem event of a swap, if any was recorded.
    pub fn load_herc20_redeemed(&self, swap_id: SwapId) -> (r: Result<
        Option<herc20::Redeemed>,
        DatabaseError,
    >)
        ensures
            r matches Ok(ev) ==> spec_find(self@, swap_id) matches Some(i) && ev
                == spec_loaded_redeemed(self@[i]),
            r is Err <==> spec_find(self@, swap_id) is None,
    {
        match self.load(swap_id) {
            Ok(rec) => match rec.herc20_redeemed {
                Some(e) => Ok(Some(herc20::Redeemed { transaction: e.transaction, secret: e.secret })),
                None => Ok(None),
            },
            Err(e) => Err(e),
        }
    }

    /// The stored herc20 refund event of a swap, if any was recorded.
    pub fn load_herc20_refunded(&self, swap_id: SwapId) -> (r: Result<
        Option<herc20::Refunded>,
        DatabaseError,
    >)
        ensures
            r matches Ok(ev) ==> spec_find(self@, swap_id) matches Some(i) && ev
                == spec_loaded_refunded(self@[i]),
            r is Err <==> spec_find(self@, swap_id) is None,
    {
        match self.load(swap_id) {
            Ok(rec) => match rec.herc20_refunded {
                Some(e) => Ok(Some(herc20::Refunded { transaction: e.transaction })),
                None => Ok(None),
            },
            Err(e) => Err(e),
        }
    }
}

/// The engine-level deploy event a stored record holds, if any.
pub open spec fn spec_loaded_deployed(rec: SwapRecord) -> Option<herc20::Deployed> {
    match rec.herc20_deployed {
        Some(e) => Some(herc20::Deployed { transaction: e.transaction, location: e.location }),
        None => None,
    }
}

/// The engine-level redeem event a stored record holds, if any.
pub open spec fn spec_loaded_redeemed(rec: SwapRecord) -> Option<herc20::Redeemed> {
    match rec.herc20_redeemed {
        Some(e) => Some(herc20::Redeemed { transaction: e.transaction, secret: e.secret }),
        None => None,
    }
}

/// The engine-level refund event a stored record holds, if any.
pub open spec fn spec_loaded_refunded(rec: SwapRecord) -> Option<herc20::Refunded> {
    match rec.herc20_refunded {
        Some(e) => Some(herc20::Refunded { transaction: e.transaction }),
        None => None,
    }
}

proof fn lemma_spec_find_at(swaps: Seq<SwapRecord>, id: SwapId, i: int)
    requires
        0 <= i < swaps.len(),
        swaps[i].swap_id == id,
        forall|j: int| 0 <= j < i ==> #[trigger] swaps[j].swap_id != id,
    ensures
        spec_find(swaps, id) == Some(i),
    decreases i,
{
    if i > 0 {
        lemma_spec_find_at(swaps.drop_first(), id, i - 1);
    }
}

proof fn lemma_spec_find_none(swaps: Seq<SwapRecord>, id: SwapId)
    requires
        forall|j: int| 0 <= j < swaps.len() ==> #[trigger] swaps[j].swap_id != id,
    ensures
        spec_find(swaps, id) is None,
    decreases swaps.len(),
{
    if swaps.len() > 0 {
        lemma_spec_find_none(swaps.drop_first(), id);
    }
}

proof fn lemma_spec_find_none_means_absent(swaps: Seq<SwapRecord>, id: SwapId)
    requires
        spec_find(swaps, id) is None,
    ensures
        forall|j: int| 0 <= j < swaps.len() ==> #[trigger] swaps[j].swap_id != id,
    decreases swaps.len(),
{
    if swaps.len() > 0 {
        lemma_spec_find_none_means_absent(swaps.drop_first(), id);
        assert forall|j: int| 0 <= j < swaps.len() implies #[trigger] swaps[j].swap_id != id by {
            if j > 0 {
                assert(swaps.drop_first()[j - 1] == swaps[j]);
            }
        }
    }
}

/// `spec_find` looks only at the ids, so a write that keeps a record's
/// id in place does not move any record's index.
proof fn lemma_spec_find_same_ids(s1: Seq<SwapRecord>, s2: Seq<SwapRecord>, id: SwapId)
    requires
        s1.len() == s2.len(),
        forall|j: int| 0 <= j < s1.len() ==> #[trigger] s1[j].swap_id == #[trigger] s2[j].swap_id,
    ensures
        spec_find(s1, id) == spec_find(s2, id),
    decreases s1.len(),
{
    if s1.len() > 0 {
        assert(s1.drop_first().len() == s2.drop_first().len());
        assert forall|j: int|
            0 <= j < s1.drop_first().len() implies #[trigger] s1.drop_first()[j].swap_id
            == #[trigger] s2.drop_first()[j].swap_id by {
            assert(s1.drop_first()[j] == s1[j + 1]);
            assert(s2.drop_first()[j] == s2[j + 1]);
        }
        lemma_spec_find_same_ids(s1.drop_first(), s2.drop_first(), id);
    }
}

/// Saving leaves every record's id where it was.
proof fn lemma_record_saved_keeps_id(rec: SwapRecord, event: StoredEvent)
    ensures
        record_saved(rec, event).swap_id == rec.swap_id,
{
}

/// Idempotence of `save`: once a save of an event succeeded, saving it
/// again fails with `AlreadyRecorded` and leaves the stored records
/// exactly as the first save left them.
pub proof fn lemma_save_idempotent(swaps: Seq<SwapRecord>, event: StoredEvent, id: SwapId)
    requires
        spec_save(swaps, event, id).0 is Ok,
    ensures
        spec_save(spec_save(swaps, event, id).1, event, id).0 == Err::<(), DatabaseError>(
            DatabaseError::AlreadyRecorded,
        ),
        spec_save(spec_save(swaps, event, id).1, event, id).1 == spec_save(swaps, event, id).1,
{
    let i = spec_find(swaps, id)->0;
    let after = spec_save(swaps, event, id).1;
    lemma_spec_find_in_range(swaps, id);
    lemma_record_saved_keeps_id(swaps[i], event);
    assert(after.len() == swaps.len());
    assert forall|j: int| 0 <= j < swaps.len() implies #[trigger] swaps[j].swap_id
        == #[trigger] after[j].swap_id by {}
    lemma_spec_find_same_ids(swaps, after, id);
    lemma_spec_find_in_range(swaps, id);
    assert(after[i] == record_saved(swaps[i], event));
    assert(!event_slot_free(after[i], event));
}

/// A found index is a real index, holding the id looked for.
pub proof fn lemma_spec_find_in_range(swaps: Seq<SwapRecord>, id: SwapId)
    ensures
        spec_find(swaps, id) matches Some(i) ==> 0 <= i < swaps.len() && swaps[i].swap_id == id,
    decreases swaps.len(),
{
    if swaps.len() > 0 {
        lemma_spec_find_in_range(swaps.drop_first(), id);
    }
}

} // verus!
