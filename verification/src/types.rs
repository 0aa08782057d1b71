//! Plain value types shared by the swap engine: identifiers, times,
//! transaction and location references.

use vstd::prelude::*;
use vstd::string::StringExecFns;

verus! {

/// Compares two byte arrays element by element.
pub fn bytes_eq<const N: usize>(a: &[u8; N], b: &[u8; N]) -> (r: bool)
    ensures
        r <==> a@ =~= b@,
{
    let mut i: usize = 0;
    while i < N
        invariant
            i <= N,
            forall|j: int| 0 <= j < i ==> a@[j] == b@[j],
        decreases N - i,
    {
        if a[i] != b[i] {
            return false;
        }
        i = i + 1;
    }
    true
}

/// Copies a byte array into a vector.
pub fn bytes_to_vec<const N: usize>(a: &[u8; N]) -> (r: Vec<u8>)
    ensures
        r@ =~= a@,
{
    let mut r: Vec<u8> = Vec::new();
    let mut i: usize = 0;
    while i < N
        invariant
            i <= N,
            r@.len() == i,
            forall|j: int| 0 <= j < i ==> r@[j] == a@[j],
        decreases N - i,
    {
        r.push(a[i]);
        i = i + 1;
    }
    r
}

/// Compares two byte vectors element by element.
pub fn byte_vecs_eq(a: &Vec<u8>, b: &Vec<u8>) -> (r: bool)
    ensures
        r <==> a@ =~= b@,
{
    if a.len() != b.len() {
        return false;
    }
    let n = a.len();
    let mut i: usize = 0;
    while i < n
        invariant
            i <= n,
            n == a@.len() && n == b@.len(),
            forall|j: int| 0 <= j < i ==> a@[j] == b@[j],
        decreases n - i,
    {
        if a[i] != b[i] {
            return false;
        }
        i = i + 1;
    }
    true
}

/// Big-endian base-256 digits of `v`, `n` bytes long; high digits
/// beyond the width are cut off.
pub open spec fn be_bytes(v: nat, n: nat) -> Seq<u8>
    decreases n,
{
    if n == 0 {
        Seq::<u8>::empty()
    } else {
        be_bytes(v / 256, (n - 1) as nat) + seq![(v % 256) as u8]
    }
}

/// The big-endian bytes of a 128-bit value, sixteen bytes long.
pub fn u128_to_be_bytes(v: u128) -> (r: Vec<u8>)
    ensures
        r@ == be_bytes(v as nat, 16),
{
    be_bytes_rec(v, 16)
}

fn be_bytes_rec(v: u128, n: usize) -> (r: Vec<u8>)
    ensures
        r@ == be_bytes(v as nat, n as nat),
    decreases n,
{
    if n == 0 {
        Vec::new()
    } else {
        let mut r = be_bytes_rec(v / 256, n - 1);
        r.push((v % 256) as u8);
        r
    }
}

/// Unique identifier of one swap instance: an opaque 128-bit value,
/// assigned at proposal time and never reused.
#[derive(Clone, Copy, Debug, PartialEq, Eq, Structural, Hash)]
pub struct SwapId {
    pub value: u128,
}

impl SwapId {
    pub fn new(value: u128) -> (r: SwapId)
        ensures
            r.value == value,
    {
        SwapId { value }
    }

    /// The sixteen bytes of the identifier, big-endian.
    pub fn as_bytes(&self) -> (r: Vec<u8>)
        ensures
            r@ == be_bytes(self.value as nat, 16),
    {
        u128_to_be_bytes(self.value)
    }

    /// The canonical hyphenated text form of the identifier.
    pub fn to_text(&self) -> (r: String)
        ensures
            r@ == swap_id_text(self.value as nat),
    {
        let v = self.value;
        let mut r = crate::encoding::to_hex_pad_u128(v / 0x1000000000000000000000000, 8);
        crate::encoding::push_char(&mut r, '-');
        let s2 = crate::encoding::to_hex_pad_u128((v / 0x100000000000000000000) % 0x10000, 4);
        r.append(s2.as_str());
        crate::encoding::push_char(&mut r, '-');
        let s3 = crate::encoding::to_hex_pad_u128((v / 0x10000000000000000) % 0x10000, 4);
        r.append(s3.as_str());
        crate::encoding::push_char(&mut r, '-');
        let s4 = crate::encoding::to_hex_pad_u128((v / 0x1000000000000) % 0x10000, 4);
        r.append(s4.as_str());
        crate::encoding::push_char(&mut r, '-');
        let s5 = crate::encoding::to_hex_pad_u128(v % 0x1000000000000, 12);
        r.append(s5.as_str());
        r
    }
}

/// The hyphenated text form of a 128-bit identifier: five groups of
/// lowercase hexadecimal digits, 8-4-4-4-12.
pub open spec fn swap_id_text(v: nat) -> Seq<char> {
    crate::encoding::hex_pad(v / 0x1000000000000000000000000, 8) + seq!['-']
        + crate::encoding::hex_pad((v / 0x100000000000000000000) % 0x10000, 4) + seq!['-']
        + crate::encoding::hex_pad((v / 0x10000000000000000) % 0x10000, 4) + seq!['-']
        + crate::encoding::hex_pad((v / 0x1000000000000) % 0x10000, 4) + seq!['-']
        + crate::encoding::hex_pad(v % 0x1000000000000, 12)
}

/// An absolute time in seconds since the Unix epoch.
#[derive(Clone, Copy, Debug, PartialEq, Eq, Structural)]
pub struct Timestamp {
    pub secs: u32,
}

impl Timestamp {
    pub fn new(secs: u32) -> (r: Timestamp)
        ensures
            r.secs == secs,
    {
        Timestamp { secs }
    }
}

/// A relative time in seconds, used for lightning invoice expiries.
#[derive(Clone, Copy, Debug, PartialEq, Eq, Structural)]
pub struct RelativeTime {
    pub secs: u32,
}

impl RelativeTime {
    pub fn new(secs: u32) -> (r: RelativeTime)
        ensures
            r.secs == secs,
    {
        RelativeTime { secs }
    }
}

/// Identifier of an Ethereum-family chain.
#[derive(Clone, Copy, Debug, PartialEq, Eq, Structural)]
pub struct ChainId {
    pub value: u32,
}

impl ChainId {
    pub fn new(value: u32) -> (r: ChainId)
        ensures
            r.value == value,
    {
        ChainId { value }
    }

    /// The chain identifier a local development geth node uses.
    pub fn geth_dev() -> (r: ChainId)
        ensures
            r.value == 1337,
    {
        ChainId { value: 1337 }
    }
}

/// An RPC or network failure while talking to a ledger. Transient;
/// watch loops retry it at their normal poll cadence.
#[derive(Clone, Copy, Debug, PartialEq, Eq, Structural)]
pub struct ConnectorError {
    pub retryable: bool,
}

/// Hash of an Ethereum transaction or block.
#[derive(Clone, Copy, Debug)]
pub struct EthHash {
    pub bytes: [u8; 32],
}

impl View for EthHash {
    type V = Seq<u8>;

    open spec fn view(&self) -> Seq<u8> {
        self.bytes@
    }
}

impl EthHash {
    pub fn from_bytes(bytes: [u8; 32]) -> (r: EthHash)
        ensures
            r@ == bytes@,
    {
        EthHash { bytes }
    }
}

impl PartialEq for EthHash {
    fn eq(&self, other: &EthHash) -> (r: bool) {
        bytes_eq(&self.bytes, &other.bytes)
    }
}

impl vstd::std_specs::cmp::PartialEqSpecImpl for EthHash {
    open spec fn obeys_eq_spec() -> bool {
        true
    }

    open spec fn eq_spec(&self, other: &EthHash) -> bool {
        self@ == other@
    }
}

/// Address of an Ethereum account or contract; for an ERC20 leg this
/// is also where the deployed contract lives.
#[derive(Clone, Copy, Debug)]
pub struct EthAddress {
    pub bytes: [u8; 20],
}

impl View for EthAddress {
    type V = Seq<u8>;

    open spec fn view(&self) -> Seq<u8> {
        self.bytes@
    }
}

impl EthAddress {
    pub fn from_bytes(bytes: [u8; 20]) -> (r: EthAddress)
        ensures
            r@ == bytes@,
    {
        EthAddress { bytes }
    }
}

impl PartialEq for EthAddress {
    fn eq(&self, other: &EthAddress) -> (r: bool) {
        bytes_eq(&self.bytes, &other.bytes)
    }
}

impl vstd::std_specs::cmp::PartialEqSpecImpl for EthAddress {
    open spec fn obeys_eq_spec() -> bool {
        true
    }

    open spec fn eq_spec(&self, other: &EthAddress) -> bool {
        self@ == other@
    }
}

/// Identifier of a Bitcoin transaction.
#[derive(Clone, Copy, Debug)]
pub struct Txid {
    pub bytes: [u8; 32],
}

impl View for Txid {
    type V = Seq<u8>;

    open spec fn view(&self) -> Seq<u8> {
        self.bytes@
    }
}

impl Txid {
    pub fn from_bytes(bytes: [u8; 32]) -> (r: Txid)
        ensures
            r@ == bytes@,
    {
        Txid { bytes }
    }
}

impl PartialEq for Txid {
    fn eq(&self, other: &Txid) -> (r: bool) {
        bytes_eq(&self.bytes, &other.bytes)
    }
}

impl vstd::std_specs::cmp::PartialEqSpecImpl for Txid {
    open spec fn obeys_eq_spec() -> bool {
        true
    }

    open spec fn eq_spec(&self, other: &Txid) -> bool {
        self@ == other@
    }
}

/// Location of a Bitcoin HTLC output: a transaction and an output
/// index within it.
#[derive(Clone, Copy, Debug)]
pub struct OutPoint {
    pub txid: Txid,
    pub vout: u32,
}

impl View for OutPoint {
    type V = (Seq<u8>, u32);

    open spec fn view(&self) -> (Seq<u8>, u32) {
        (self.txid@, self.vout)
    }
}

impl OutPoint {
    pub fn new(txid: Txid, vout: u32) -> (r: OutPoint)
        ensures
            r.txid@ == txid@ && r.vout == vout,
    {
        OutPoint { txid, vout }
    }
}

impl PartialEq for OutPoint {
    fn eq(&self, other: &OutPoint) -> (r: bool) {
        bytes_eq(&self.txid.bytes, &other.txid.bytes) && self.vout == other.vout
    }
}

impl vstd::std_specs::cmp::PartialEqSpecImpl for OutPoint {
    open spec fn obeys_eq_spec() -> bool {
        true
    }

    open spec fn eq_spec(&self, other: &OutPoint) -> bool {
        self@ == other@
    }
}

} // verus!
