//! Plain values that travel through the relay: hashes, addresses, and the
//! chain observations (logs, block heads, receipts) that drive the pipelines.
use vstd::prelude::*;

use crate::uint::U256;

verus! {

/// Compares two byte arrays of the same length, element by element.
pub fn bytes_equal<const N: usize>(a: &[u8; N], b: &[u8; N]) -> (r: bool)
    ensures
        r == (a@ == b@),
{
    let mut i: usize = 0;
    while i < N
        invariant
            0 <= i <= N,
            a@.len() == N,
            b@.len() == N,
            forall|j: int| 0 <= j < i ==> a@[j] == b@[j],
        decreases N - i,
    {
        if a[i] != b[i] {
            return false;
        }
        i = i + 1;
    }
    proof {
        assert(a@ =~= b@);
    }
    true
}

/// A 32-byte hash (a block hash, a transaction hash, a log topic).
#[derive(Clone, Copy, Debug)]
pub struct H256 {
    pub bytes: [u8; 32],
}

/// A 20-byte account or contract address.
#[derive(Clone, Copy, Debug)]
pub struct Address {
    pub bytes: [u8; 20],
}

impl PartialEq for H256 {
    fn eq(&self, o: &H256) -> (r: bool) {
        bytes_equal(&self.bytes, &o.bytes)
    }
}

impl vstd::std_specs::cmp::PartialEqSpecImpl for H256 {
    open spec fn obeys_eq_spec() -> bool {
        true
    }

    open spec fn eq_spec(&self, o: &H256) -> bool {
        self.bytes@ == o.bytes@
    }
}

impl PartialEq for Address {
    fn eq(&self, o: &Address) -> (r: bool) {
        bytes_equal(&self.bytes, &o.bytes)
    }
}

impl vstd::std_specs::cmp::PartialEqSpecImpl for Address {
    open spec fn obeys_eq_spec() -> bool {
        true
    }

    open spec fn eq_spec(&self, o: &Address) -> bool {
        self.bytes@ == o.bytes@
    }
}

/// The 32-byte topic form of an address: twelve zero bytes, then the address.
pub open spec fn address_topic(a: Seq<u8>) -> Seq<u8> {
    Seq::new(12, |i: int| 0u8) + a
}

impl H256 {
    pub fn from_bytes(bytes: [u8; 32]) -> (r: H256)
        ensures
            r.bytes@ == bytes@,
    {
        H256 { bytes }
    }

    /// The address held in the last 20 bytes of this word.
    pub fn to_address(&self) -> (r: Address)
        ensures
            r.bytes@ == self.bytes@.subrange(12, 32),
    {
        let mut out = [0u8; 20];
        let mut i: usize = 0;
        while i < 20
            invariant
                0 <= i <= 20,
                self.bytes@.len() == 32,
                out@.len() == 20,
                forall|j: int| 0 <= j < i ==> out@[j] == self.bytes@[j + 12],
            decreases 20 - i,
        {
            out[i] = self.bytes[i + 12];
            i = i + 1;
        }
        proof {
            assert(out@ =~= self.bytes@.subrange(12, 32));
        }
        Address { bytes: out }
    }
}

impl Address {
    pub fn from_bytes(bytes: [u8; 20]) -> (r: Address)
        ensures
            r.bytes@ == bytes@,
    {
        Address { bytes }
    }

    /// This address as a 32-byte topic, left-padded with zeros.
    pub fn to_h256(&self) -> (r: H256)
        ensures
            r.bytes@ == address_topic(self.bytes@),
    {
        let mut out = [0u8; 32];
        let mut i: usize = 0;
        while i < 20
            invariant
                0 <= i <= 20,
                self.bytes@.len() == 20,
                out@.len() == 32,
                forall|j: int| 0 <= j < 12 ==> out@[j] == 0u8,
                forall|j: int| 0 <= j < i ==> out@[j + 12] == self.bytes@[j],
            decreases 20 - i,
        {
            out[i + 12] = self.bytes[i];
            i = i + 1;
        }
        proof {
            assert forall|j: int| 12 <= j < 32 implies out@[j] == address_topic(self.bytes@)[j] by {
                assert(out@[(j - 12) + 12] == self.bytes@[j - 12]);
            }
            assert(out@ =~= address_topic(self.bytes@));
        }
        H256 { bytes: out }
    }
}

/// Which side of the bridge a network is.
#[derive(Clone, Copy, Debug, PartialEq, Eq, Structural)]
pub enum NetworkType {
    Home,
    Side,
}

/// A log event as delivered by a `logs` subscription.
#[derive(Clone, Debug)]
pub struct Log {
    /// The contract that emitted the event.
    pub address: Address,
    pub topics: Vec<H256>,
    pub data: Vec<u8>,
    pub transaction_hash: Option<H256>,
    /// Set when a reorganisation revoked the log.
    pub removed: Option<bool>,
}

/// The fields of a block (or block head) that the relay reads.
#[derive(Clone, Copy, Debug)]
pub struct BlockHeader {
    pub number: Option<u64>,
    pub hash: Option<H256>,
}

/// Where a transaction was mined.
#[derive(Clone, Copy, Debug)]
pub struct Receipt {
    pub block_hash: H256,
    pub block_number: u64,
}

/// A confirmed transfer towards the relay contract, to be mirrored on the peer chain.
#[derive(Clone, Copy, Debug)]
pub struct Transfer {
    pub destination: Address,
    pub amount: U256,
    pub tx_hash: H256,
    pub block_hash: H256,
    pub block_number: U256,
}

/// A sidechain block to be committed on the homechain.
#[derive(Clone, Copy, Debug)]
pub struct Anchor {
    pub block_hash: H256,
    pub block_number: U256,
}

impl PartialEq for Transfer {
    fn eq(&self, o: &Transfer) -> (r: bool) {
        self.destination == o.destination && self.amount == o.amount && self.tx_hash == o.tx_hash
            && self.block_hash == o.block_hash && self.block_number == o.block_number
    }
}

impl vstd::std_specs::cmp::PartialEqSpecImpl for Transfer {
    open spec fn obeys_eq_spec() -> bool {
        true
    }

    open spec fn eq_spec(&self, o: &Transfer) -> bool {
        &&& self.destination.bytes@ == o.destination.bytes@
        &&& self.amount.bytes@ == o.amount.bytes@
        &&& self.tx_hash.bytes@ == o.tx_hash.bytes@
        &&& self.block_hash.bytes@ == o.block_hash.bytes@
        &&& self.block_number.bytes@ == o.block_number.bytes@
    }
}

impl PartialEq for Anchor {
    fn eq(&self, o: &Anchor) -> (r: bool) {
        self.block_hash == o.block_hash && self.block_number == o.block_number
    }
}

impl vstd::std_specs::cmp::PartialEqSpecImpl for Anchor {
    open spec fn obeys_eq_spec() -> bool {
        true
    }

    open spec fn eq_spec(&self, o: &Anchor) -> bool {
        &&& self.block_hash.bytes@ == o.block_hash.bytes@
        &&& self.block_number.bytes@ == o.block_number.bytes@
    }
}

} // verus!
