//! Per-chain decisions of the relay: which logs become transfers, which heads
//! trigger anchors, and which contract calls the peer chain receives.
use vstd::prelude::*;

use crate::errors::Error;
use crate::hex::{format_address_spec, hex_encode, lemma_address_round_trip, parse_address, parse_address_spec};
use crate::settings::valid_cadence;
use crate::types::{address_topic, Address, Anchor, BlockHeader, H256, Log, NetworkType, Receipt, Transfer};
use crate::uint::{be_nat, U256};

verus! {

/// Keccak-256 of `Transfer(address,address,uint256)`, the topic of the ERC20 transfer event.
pub open spec fn transfer_signature() -> Seq<u8> {
    seq![
        0xddu8, 0xf2, 0x52, 0xad, 0x1b, 0xe2, 0xc8, 0x9b, 0x69, 0xc2, 0xb0, 0x68, 0xfc, 0x37, 0x8d,
        0xaa, 0x95, 0x2b, 0xa7, 0xf1, 0x63, 0xc4, 0xa1, 0x16, 0x28, 0xf5, 0x5a, 0x4d, 0xf5, 0x23,
        0xb3, 0xef,
    ]
}

/// The topic that identifies ERC20 transfer events.
pub fn transfer_event_signature() -> (r: H256)
    ensures
        r.bytes@ == transfer_signature(),
{
    let bytes: [u8; 32] = [
        0xdd, 0xf2, 0x52, 0xad, 0x1b, 0xe2, 0xc8, 0x9b, 0x69, 0xc2, 0xb0, 0x68, 0xfc, 0x37, 0x8d,
        0xaa, 0x95, 0x2b, 0xa7, 0xf1, 0x63, 0xc4, 0xa1, 0x16, 0x28, 0xf5, 0x5a, 0x4d, 0xf5, 0x23,
        0xb3, 0xef,
    ];
    proof {
        assert(bytes@ =~= transfer_signature());
    }
    H256 { bytes }
}

/// The subscription filter for transfers into the relay contract: events of the
/// token contract whose first topic is the transfer signature and whose third
/// topic is the relay address; the second and fourth topics are unconstrained.
#[derive(Clone, Copy, Debug)]
pub struct LogFilter {
    pub address: Address,
    pub event: H256,
    pub recipient: H256,
}

/// A transfer seen in a log, waiting for its transaction to be buried.
#[derive(Clone, Copy, Debug)]
pub struct PendingTransfer {
    pub destination: Address,
    pub amount: U256,
    pub tx_hash: H256,
}

impl PendingTransfer {
    /// The transfer record, once the transaction's receipt is confirmed.
    pub fn confirm(&self, receipt: &Receipt) -> (r: Transfer)
        ensures
            r.destination == self.destination,
            r.amount == self.amount,
            r.tx_hash == self.tx_hash,
            r.block_hash == receipt.block_hash,
            r.block_number@ == receipt.block_number as nat,
    {
        Transfer {
            destination: self.destination,
            amount: self.amount,
            tx_hash: self.tx_hash,
            block_hash: receipt.block_hash,
            block_number: U256::from_u64(receipt.block_number),
        }
    }
}

/// A call on a relay contract.
#[derive(Clone, Copy, Debug)]
pub enum RelayMethod {
    /// `processWithdrawal(bytes32,address,uint256)`
    ProcessWithdrawal { tx_hash: H256, destination: Address, amount: U256 },
    /// `anchor(bytes32,uint256)`
    Anchor { block_hash: H256, block_number: U256 },
}

/// A call to submit to the relay contract at `contract`.
#[derive(Clone, Copy, Debug)]
pub struct RelayCall {
    pub contract: Address,
    pub method: RelayMethod,
}

/// The block that head `n` anchors: when `n mod f == c`, the block `c` below it.
pub open spec fn anchor_target_spec(n: u64, c: u64, f: u64) -> Option<u64> {
    if f > 0 && n % f == c {
        Some((n - c) as u64)
    } else {
        None
    }
}

/// One chain of the bridge: its token and relay contracts, its confirmation
/// depth and its anchor cadence.
#[derive(Clone, Copy, Debug)]
pub struct Network {
    pub network_type: NetworkType,
    pub token: Address,
    pub relay: Address,
    pub confirmations: u64,
    pub anchor_frequency: u64,
}

impl Network {
    pub open spec fn wf(&self) -> bool {
        valid_cadence(self.confirmations, self.anchor_frequency)
    }

    /// Parses both contract addresses (each with an optional `0x`) and checks
    /// that the depth lies below the anchor frequency.
    pub fn new(
        network_type: NetworkType,
        token: &str,
        relay: &str,
        confirmations: u64,
        anchor_frequency: u64,
    ) -> (r: Result<Network, Error>)
        ensures
            new_outcome(network_type, token@, relay@, confirmations, anchor_frequency, r),
    {
        let token_address = match parse_address(token) {
            Some(a) => a,
            None => return Err(Error::InvalidAddress(token.to_owned())),
        };
        let relay_address = match parse_address(relay) {
            Some(a) => a,
            None => return Err(Error::InvalidAddress(relay.to_owned())),
        };
        if anchor_frequency == 0 {
            return Err(Error::InvalidAnchorFrequency);
        }
        if confirmations >= anchor_frequency {
            return Err(Error::InvalidConfirmations);
        }
        Ok(Network {
            network_type,
            token: token_address,
            relay: relay_address,
            confirmations,
            anchor_frequency,
        })
    }

    /// `new` for the homechain.
    pub fn homechain(token: &str, relay: &str, confirmations: u64, anchor_frequency: u64) -> (r:
        Result<Network, Error>)
        ensures
            new_outcome(NetworkType::Home, token@, relay@, confirmations, anchor_frequency, r),
    {
        Network::new(NetworkType::Home, token, relay, confirmations, anchor_frequency)
    }

    /// `new` for the sidechain.
    pub fn sidechain(token: &str, relay: &str, confirmations: u64, anchor_frequency: u64) -> (r:
        Result<Network, Error>)
        ensures
            new_outcome(NetworkType::Side, token@, relay@, confirmations, anchor_frequency, r),
    {
        Network::new(NetworkType::Side, token, relay, confirmations, anchor_frequency)
    }

    pub fn network_type(&self) -> (r: NetworkType)
        ensures
            r == self.network_type,
    {
        self.network_type
    }

    /// The filter of the log subscription that feeds the transfer pipeline.
    pub fn transfer_filter(&self) -> (r: LogFilter)
        ensures
            r.address == self.token,
            r.event.bytes@ == transfer_signature(),
            r.recipient.bytes@ == address_topic(self.relay.bytes@),
    {
        LogFilter {
            address: self.token,
            event: transfer_event_signature(),
            recipient: self.relay.to_h256(),
        }
    }

    /// A log yields a transfer when it was not revoked by a reorganisation,
    /// names its transaction, carries the transfer signature as its first topic
    /// and this chain's relay contract as its third, and its data is exactly the
    /// 32-byte amount.
    pub open spec fn accepts_log(&self, log: Log) -> bool {
        &&& log.removed != Some(true)
        &&& log.transaction_hash is Some
        &&& log.topics@.len() >= 3
        &&& log.topics@[0].bytes@ == transfer_signature()
        &&& log.topics@[2].bytes@ == address_topic(self.relay.bytes@)
        &&& log.data@.len() == 32
    }

    /// The pending transfer that an incoming log announces, if any.
    pub fn accept_log(&self, log: &Log) -> (r: Option<PendingTransfer>)
        ensures
            r is Some <==> self.accepts_log(*log),
            r matches Some(p) ==> {
                &&& p.destination.bytes@ == log.topics@[2].bytes@.subrange(12, 32)
                &&& p.destination.bytes@ == self.relay.bytes@
                &&& p.amount.bytes@ == log.data@.subrange(0, 32)
                &&& p.amount@ == be_nat(log.data@.subrange(0, 32))
                &&& log.transaction_hash == Some(p.tx_hash)
            },
    {
        if let Some(true) = log.removed {
            return None;
        }
        let tx_hash = match log.transaction_hash {
            Some(h) => h,
            None => return None,
        };
        if log.topics.len() < 3 {
            return None;
        }
        let signature = transfer_event_signature();
        if !(log.topics[0] == signature) {
            return None;
        }
        if !(log.topics[2] == self.relay.to_h256()) {
            return None;
        }
        if log.data.len() != 32 {
            return None;
        }
        let destination = log.topics[2].to_address();
        let amount = U256::from_big_endian(log.data.as_slice());
        proof {
            assert(destination.bytes@ =~= self.relay.bytes@);
        }
        Some(PendingTransfer { destination, amount, tx_hash })
    }

    /// The block that a new head asks to anchor: for a head of height `n` with
    /// `n mod anchor_frequency == confirmations`, the block `n - confirmations`.
    /// A zero anchor frequency anchors nothing.
    pub fn anchor_target(&self, head: &BlockHeader) -> (r: Option<u64>)
        ensures
            r == match head.number {
                Some(n) => anchor_target_spec(n, self.confirmations, self.anchor_frequency),
                None => None,
            },
    {
        match head.number {
            Some(n) => {
                if self.anchor_frequency != 0 && n % self.anchor_frequency == self.confirmations {
                    proof {
                        vstd::arithmetic::div_mod::lemma_mod_decreases(
                            n as nat,
                            self.anchor_frequency as nat,
                        );
                    }
                    Some(n - self.confirmations)
                } else {
                    None
                }
            },
            None => None,
        }
    }

    /// The withdrawal that this chain's relay contract is asked to process.
    pub fn process_withdrawal(&self, transfer: &Transfer) -> (r: RelayCall)
        ensures
            r.contract == self.relay,
            r.method == (RelayMethod::ProcessWithdrawal {
                tx_hash: transfer.tx_hash,
                destination: transfer.destination,
                amount: transfer.amount,
            }),
    {
        RelayCall {
            contract: self.relay,
            method: RelayMethod::ProcessWithdrawal {
                tx_hash: transfer.tx_hash,
                destination: transfer.destination,
                amount: transfer.amount,
            },
        }
    }

    /// The anchor that this chain's relay contract is asked to record.
    pub fn anchor(&self, anchor: &Anchor) -> (r: RelayCall)
        ensures
            r.contract == self.relay,
            r.method == (RelayMethod::Anchor {
                block_hash: anchor.block_hash,
                block_number: anchor.block_number,
            }),
    {
        RelayCall {
            contract: self.relay,
            method: RelayMethod::Anchor {
                block_hash: anchor.block_hash,
                block_number: anchor.block_number,
            },
        }
    }
}

/// What `Network::new` returns for these arguments: the first address that does
/// not parse is reported; then a zero frequency; then a depth not below it.
pub open spec fn new_outcome(
    network_type: NetworkType,
    token: Seq<char>,
    relay: Seq<char>,
    confirmations: u64,
    anchor_frequency: u64,
    r: Result<Network, Error>,
) -> bool {
    let t = parse_address_spec(token);
    let l = parse_address_spec(relay);
    &&& r is Ok <==> (t is Some && l is Some && valid_cadence(confirmations, anchor_frequency))
    &&& t is None ==> (r matches Err(Error::InvalidAddress(s)) && s@ == token)
    &&& t is Some && l is None ==> (r matches Err(Error::InvalidAddress(s)) && s@ == relay)
    &&& t is Some && l is Some ==> {
        &&& (r matches Err(Error::InvalidAnchorFrequency)) <==> anchor_frequency == 0
        &&& (r matches Err(Error::InvalidConfirmations)) <==> (anchor_frequency != 0
            && confirmations >= anchor_frequency)
    }
    &&& r matches Ok(n) ==> {
        &&& n.wf()
        &&& n.network_type == network_type
        &&& t == Some(n.token.bytes@)
        &&& l == Some(n.relay.bytes@)
        &&& n.confirmations == confirmations
        &&& n.anchor_frequency == anchor_frequency
    }
}


/// The anchor for a fetched block; blocks without a number or a hash give none.
pub fn anchor_of_block(block: &BlockHeader) -> (r: Option<Anchor>)
    ensures
        r is Some <==> (block.number is Some && block.hash is Some),
        r matches Some(a) ==> {
            &&& block.hash == Some(a.block_hash)
            &&& a.block_number@ == block.number->0 as nat
        },
{
    match (block.number, block.hash) {
        (Some(n), Some(h)) => Some(Anchor { block_hash: h, block_number: U256::from_u64(n) }),
        _ => None,
    }
}

/// The two chains of the bridge. Transfers seen on one chain are withdrawn on
/// the other; sidechain blocks are anchored on the homechain.
#[derive(Clone, Copy, Debug)]
pub struct Relay {
    pub homechain: Network,
    pub sidechain: Network,
}

impl Relay {
    pub fn new(homechain: Network, sidechain: Network) -> (r: Relay)
        ensures
            r.homechain == homechain,
            r.sidechain == sidechain,
    {
        Relay { homechain, sidechain }
    }

    /// The network on the other side of the bridge from `source`.
    pub fn peer(&self, source: NetworkType) -> (r: &Network)
        ensures
            source == NetworkType::Home ==> *r == self.sidechain,
            source == NetworkType::Side ==> *r == self.homechain,
    {
        match source {
            NetworkType::Home => &self.sidechain,
            NetworkType::Side => &self.homechain,
        }
    }

    /// The call that mirrors a transfer confirmed on `source`: a withdrawal on the
    /// peer chain's relay contract.
    pub fn withdrawal_for(&self, source: NetworkType, transfer: &Transfer) -> (r: RelayCall)
        ensures
            source == NetworkType::Home ==> r.contract == self.sidechain.relay,
            source == NetworkType::Side ==> r.contract == self.homechain.relay,
            r.method == (RelayMethod::ProcessWithdrawal {
                tx_hash: transfer.tx_hash,
                destination: transfer.destination,
                amount: transfer.amount,
            }),
    {
        self.peer(source).process_withdrawal(transfer)
    }

    /// The call that records a sidechain anchor on the homechain.
    pub fn anchor_for(&self, anchor: &Anchor) -> (r: RelayCall)
        ensures
            r.contract == self.homechain.relay,
            r.method == (RelayMethod::Anchor {
                block_hash: anchor.block_hash,
                block_number: anchor.block_number,
            }),
    {
        self.homechain.anchor(anchor)
    }
}

/// A log carrying the transfer signature and this chain's relay address as its
/// first and third topics, not revoked, with a transaction hash and an amount,
/// yields a transfer; a revoked log, or one with either topic different, never does.
pub proof fn lemma_transfer_filter(net: Network, log: Log)
    ensures
        log.removed == Some(true) ==> !net.accepts_log(log),
        log.topics@.len() >= 1 && log.topics@[0].bytes@ != transfer_signature() ==> !net.accepts_log(log),
        log.topics@.len() >= 3 && log.topics@[2].bytes@ != address_topic(net.relay.bytes@)
            ==> !net.accepts_log(log),
        ({
            &&& log.removed != Some(true)
            &&& log.topics@.len() >= 3
            &&& log.topics@[0].bytes@ == transfer_signature()
            &&& log.topics@[2].bytes@ == address_topic(net.relay.bytes@)
            &&& log.transaction_hash is Some
            &&& log.data@.len() == 32
        }) ==> net.accepts_log(log),
{
}

/// Anchors fall on multiples of the frequency: head `k * f + c` anchors block
/// `k * f`, and every anchored block is a multiple of `f` lying `c` below the
/// head that triggered it (a positive multiple once the head reaches `f`).
pub proof fn lemma_anchor_cadence(c: u64, f: u64, k: nat, n: u64)
    requires
        valid_cadence(c, f),
        k * f + c <= u64::MAX,
    ensures
        anchor_target_spec((k * f + c) as u64, c, f) == Some((k * f) as u64),
        anchor_target_spec(n, c, f) matches Some(t) ==> {
            &&& t % f == 0
            &&& t + c == n
            &&& n >= f ==> t >= f
        },
{
    let m = k * f + c;
    assert(m % (f as int) == c as int) by {
        vstd::arithmetic::div_mod::lemma_fundamental_div_mod_converse_mod(
            m as int,
            f as int,
            k as int,
            c as int,
        );
    }
    if n % f == c {
        let q = n / f;
        vstd::arithmetic::div_mod::lemma_fundamental_div_mod(n as int, f as int);
        assert((n - c) as int == f * q);
        vstd::arithmetic::div_mod::lemma_mod_multiples_basic(q as int, f as int);
        assert((f * q) % (f as int) == 0) by {
            vstd::arithmetic::mul::lemma_mul_is_commutative(f as int, q as int);
        }
        if n >= f {
            assert(q >= 1) by (nonlinear_arith)
                requires
                    n == f * q + c,
                    c < f,
                    n >= f,
                    q >= 0,
            ;
            assert(f * q >= f) by (nonlinear_arith)
                requires
                    q >= 1,
                    f > 0,
            ;
        }
    }
}

/// Distinct heads never anchor the same block, so each height is anchored at most once.
pub proof fn lemma_anchor_heights_distinct(c: u64, f: u64, n1: u64, n2: u64)
    requires
        anchor_target_spec(n1, c, f) is Some,
        anchor_target_spec(n1, c, f) == anchor_target_spec(n2, c, f),
    ensures
        n1 == n2,
{
    vstd::arithmetic::div_mod::lemma_mod_decreases(n1 as nat, f as nat);
    vstd::arithmetic::div_mod::lemma_mod_decreases(n2 as nat, f as nat);
}

/// An address formatted as hex, with or without `0x`, and handed to
/// `Network::new` comes back as the same bytes, for the token and for the relay
/// address alike, whenever the depth and frequency are themselves accepted.
pub proof fn lemma_network_address_round_trip(
    network_type: NetworkType,
    token: Address,
    relay: Address,
    token_prefixed: bool,
    relay_prefixed: bool,
    confirmations: u64,
    anchor_frequency: u64,
    r: Result<Network, Error>,
)
    requires
        valid_cadence(confirmations, anchor_frequency),
        new_outcome(
            network_type,
            if token_prefixed {
                format_address_spec(token.bytes@)
            } else {
                hex_encode(token.bytes@)
            },
            if relay_prefixed {
                format_address_spec(relay.bytes@)
            } else {
                hex_encode(relay.bytes@)
            },
            confirmations,
            anchor_frequency,
            r,
        ),
    ensures
        r matches Ok(n) && n.token.bytes@ == token.bytes@ && n.relay.bytes@ == relay.bytes@,
{
    lemma_address_round_trip(token);
    lemma_address_round_trip(relay);
}

} // verus!
