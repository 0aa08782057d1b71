//! The lightning leg of a swap: once its parameters are final, each
//! protocol step is one fully determined instruction to the lightning
//! node — add a hold invoice, pay it, or settle it with the secret.

use vstd::prelude::*;

use crate::asset;
use crate::ledger;
use crate::secret::{Secret, SecretHash};
use crate::types::RelativeTime;

verus! {

/// How long a hold invoice stays payable, in seconds.
pub const INVOICE_EXPIRY_SECS: u32 = 3600;

/// A lightning node's identity: its public key.
#[derive(Clone, Copy, Debug)]
pub struct LightningIdentity {
    pub bytes: [u8; 33],
}

impl View for LightningIdentity {
    type V = Seq<u8>;

    open spec fn view(&self) -> Seq<u8> {
        self.bytes@
    }
}

impl LightningIdentity {
    pub fn from_bytes(bytes: [u8; 33]) -> (r: LightningIdentity)
        ensures
            r@ == bytes@,
    {
        LightningIdentity { bytes }
    }
}

/// Which chain the lightning node settles on.
#[derive(Clone, Copy, Debug, PartialEq, Eq, Structural)]
pub enum Chain {
    Bitcoin,
}

/// The redeemer's instruction to its node: hold an invoice for the
/// agreed amount, payable against the secret hash.
#[derive(Clone, Copy, Debug)]
pub struct AddHoldInvoice {
    pub amount: asset::Bitcoin,
    pub secret_hash: SecretHash,
    pub expiry: u32,
    pub cltv_expiry: RelativeTime,
    pub chain: Chain,
    pub network: ledger::Bitcoin,
    pub self_public_key: LightningIdentity,
}

/// The funder's instruction to its node: pay the invoice locked under
/// the secret hash.
#[derive(Clone, Copy, Debug)]
pub struct SendPayment {
    pub to_public_key: LightningIdentity,
    pub amount: asset::Bitcoin,
    pub secret_hash: SecretHash,
    pub final_cltv_delta: RelativeTime,
    pub chain: Chain,
    pub network: ledger::Bitcoin,
    pub self_public_key: LightningIdentity,
}

/// The redeemer's instruction to its node: settle the held invoice by
/// revealing the secret.
#[derive(Clone, Copy, Debug)]
pub struct SettleInvoice {
    pub secret: Secret,
    pub chain: Chain,
    pub network: ledger::Bitcoin,
    pub self_public_key: LightningIdentity,
}

/// The observed progress of the lightning leg.
#[derive(Clone, Copy, Debug, PartialEq, Eq, Structural)]
pub enum State {
    NotOpened,
    Opened,
    Accepted,
    Settled,
    Cancelled,
}

/// The finalized parameters of a lightning leg, fixed once both
/// parties' identities are known.
#[derive(Clone, Copy, Debug)]
pub struct Finalized {
    pub asset: asset::Bitcoin,
    pub network: ledger::Bitcoin,
    pub refund_identity: LightningIdentity,
    pub redeem_identity: LightningIdentity,
    pub cltv_expiry: RelativeTime,
    pub state: State,
}

impl Finalized {
    /// The instruction that opens the leg: the redeemer holds an
    /// invoice for the agreed amount under the agreed hash, with the
    /// fixed invoice expiry.
    pub fn build_init_action(&self, secret_hash: SecretHash) -> (r: AddHoldInvoice)
        ensures
            r.amount == self.asset,
            r.secret_hash@ == secret_hash@,
            r.expiry == INVOICE_EXPIRY_SECS,
            r.cltv_expiry == self.cltv_expiry,
            r.chain == Chain::Bitcoin,
            r.network == self.network,
            r.self_public_key@ == self.redeem_identity@,
    {
        AddHoldInvoice {
            amount: self.asset,
            secret_hash,
            expiry: INVOICE_EXPIRY_SECS,
            cltv_expiry: self.cltv_expiry,
            chain: Chain::Bitcoin,
            network: self.network,
            self_public_key: self.redeem_identity,
        }
    }

    /// The instruction that funds the leg: the funder pays the agreed
    /// amount to the redeemer, locked under the agreed hash.
    pub fn build_fund_action(&self, secret_hash: SecretHash) -> (r: SendPayment)
        ensures
            r.to_public_key@ == self.redeem_identity@,
            r.amount == self.asset,
            r.secret_hash@ == secret_hash@,
            r.final_cltv_delta == self.cltv_expiry,
            r.chain == Chain::Bitcoin,
            r.network == self.network,
            r.self_public_key@ == self.refund_identity@,
    {
        SendPayment {
            to_public_key: self.redeem_identity,
            amount: self.asset,
            secret_hash,
            final_cltv_delta: self.cltv_expiry,
            chain: Chain::Bitcoin,
            network: self.network,
            self_public_key: self.refund_identity,
        }
    }

    /// The instruction that redeems the leg: the redeemer settles the
    /// held invoice by revealing the secret.
    pub fn build_redeem_action(&self, secret: Secret) -> (r: SettleInvoice)
        ensures
            r.secret@ == secret@,
            r.chain == Chain::Bitcoin,
            r.network == self.network,
            r.self_public_key@ == self.redeem_identity@,
    {
        SettleInvoice {
            secret,
            chain: Chain::Bitcoin,
            network: self.network,
            self_public_key: self.redeem_identity,
        }
    }
}

} // verus!
