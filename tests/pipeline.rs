use ethabi::{Event, EventParam, ParamType};
use polyswarm_relay::confirm::{ConfirmationWaiter, WaitAction, WaitEvent};
use polyswarm_relay::errors::Error;
use polyswarm_relay::hex::{clean_0x, parse_address};
use polyswarm_relay::network::{
    anchor_of_block, transfer_event_signature, Network, Relay, RelayMethod,
};
use polyswarm_relay::settings::{self, Settings};
use polyswarm_relay::types::{Address, BlockHeader, Log, NetworkType, Receipt, Transfer, H256};
use polyswarm_relay::uint::U256;

const TOKEN: &str = "0x00000000000000000000000000000000000000aa";
const HOME_RELAY: &str = "0x1111111111111111111111111111111111111111";
const SIDE_TOKEN: &str = "0x00000000000000000000000000000000000000bb";
const SIDE_RELAY: &str = "0x2222222222222222222222222222222222222222";

fn hash(b: u8) -> H256 {
    H256::from_bytes([b; 32])
}

fn amount_data(n: u64) -> Vec<u8> {
    U256::from_u64(n).to_big_endian().to_vec()
}

fn sender_topic() -> H256 {
    parse_address("0x00000000000000000000000000000000000000aa").unwrap().to_h256()
}

fn home(confirmations: u64, anchor_frequency: u64) -> Network {
    Network::homechain(TOKEN, HOME_RELAY, confirmations, anchor_frequency).unwrap()
}

fn side(confirmations: u64, anchor_frequency: u64) -> Network {
    Network::sidechain(SIDE_TOKEN, SIDE_RELAY, confirmations, anchor_frequency).unwrap()
}

fn transfer_log(net: &Network, tx: H256, amount: u64) -> Log {
    Log {
        address: net.token,
        topics: vec![transfer_event_signature(), sender_topic(), net.relay.to_h256()],
        data: amount_data(amount),
        transaction_hash: Some(tx),
        removed: Some(false),
    }
}

/// Drives a waiter through a pending poll, then `receipt`, then the given heads,
/// returning the receipt when it is confirmed and the head that confirmed it.
fn wait(tx: H256, depth: u64, receipt: Receipt, heads: &[u64]) -> Option<(Receipt, u64)> {
    let mut w = ConfirmationWaiter::new(tx, depth);
    assert!(matches!(w.start(), WaitAction::FetchReceipt { after_interval: false }));
    assert!(matches!(w.step(WaitEvent::Receipt(None)), WaitAction::FetchReceipt { after_interval: true }));
    assert!(matches!(
        w.step(WaitEvent::Receipt(Some(receipt))),
        WaitAction::FetchBlockNumber { after_interval: false }
    ));
    for &h in heads {
        match w.step(WaitEvent::BlockNumber(h)) {
            WaitAction::Confirmed(r) => return Some((r, h)),
            WaitAction::FetchBlockNumber { after_interval: true } => {}
            other => panic!("unexpected action {:?}", other),
        }
    }
    None
}

#[test]
fn single_transfer_home_to_side() {
    let h = home(2, 10);
    let s = side(2, 10);
    let relay = Relay::new(h, s);
    let tx = hash(0x48);
    let b5 = hash(0xb5);
    let log = transfer_log(&h, tx, 500);
    let pending = h.accept_log(&log).expect("matching log is accepted");
    let (receipt, head) = wait(tx, 2, Receipt { block_hash: b5, block_number: 5 }, &[5, 6, 7]).unwrap();
    assert_eq!(head, 7);
    let t = pending.confirm(&receipt);
    let expected = Transfer {
        destination: h.relay,
        amount: U256::from_u64(500),
        tx_hash: tx,
        block_hash: b5,
        block_number: U256::from_u64(5),
    };
    assert!(t == expected);
    let call = relay.withdrawal_for(NetworkType::Home, &t);
    assert!(call.contract == s.relay);
    match call.method {
        RelayMethod::ProcessWithdrawal { tx_hash, destination, amount } => {
            assert!(tx_hash == tx);
            assert!(destination == h.relay);
            assert!(amount == U256::from_u64(500));
        }
        _ => panic!("expected a withdrawal"),
    }
    for n in 5..=7u64 {
        assert_eq!(h.anchor_target(&BlockHeader { number: Some(n), hash: Some(hash(n as u8)) }), None);
    }
}

#[test]
fn removed_log_is_dropped() {
    let h = home(2, 10);
    let mut log = transfer_log(&h, hash(1), 500);
    log.removed = Some(true);
    assert!(h.accept_log(&log).is_none());
}

#[test]
fn anchors_every_frequency_blocks() {
    let h = home(2, 5);
    let s = side(2, 5);
    let relay = Relay::new(h, s);
    let heads: Vec<(u64, Option<u64>)> = (5..=12u64)
        .map(|n| (n, s.anchor_target(&BlockHeader { number: Some(n), hash: Some(hash(n as u8)) })))
        .collect();
    let fired: Vec<(u64, u64)> = heads.iter().filter_map(|(n, t)| t.map(|t| (*n, t))).collect();
    assert_eq!(fired, vec![(7, 5), (12, 10)]);
    let b5 = hash(0xb5);
    let anchor = anchor_of_block(&BlockHeader { number: Some(5), hash: Some(b5) }).unwrap();
    assert!(anchor.block_hash == b5);
    assert!(anchor.block_number == U256::from_u64(5));
    let call = relay.anchor_for(&anchor);
    assert!(call.contract == h.relay);
    match call.method {
        RelayMethod::Anchor { block_hash, block_number } => {
            assert!(block_hash == b5);
            assert!(block_number == U256::from_u64(5));
        }
        _ => panic!("expected an anchor"),
    }
}

#[test]
fn mismatched_topic_is_dropped() {
    let h = home(2, 10);
    let mut log = transfer_log(&h, hash(1), 500);
    log.topics[2] = H256::from_bytes([
        0, 0, 0, 0, 0, 0, 0, 0, 0, 0, 0, 0, 0xde, 0xad, 0xbe, 0xef, 0, 0, 0, 0, 0, 0, 0, 0, 0, 0,
        0, 0, 0, 0, 0, 0,
    ]);
    assert!(h.accept_log(&log).is_none());
    let mut log = transfer_log(&h, hash(1), 500);
    log.topics[0] = hash(7);
    assert!(h.accept_log(&log).is_none());
}

#[test]
fn depth_equal_to_frequency_is_rejected() {
    let net = settings::Network {
        ws_uri: "ws://localhost:8546".to_string(),
        token: TOKEN.to_string(),
        relay: HOME_RELAY.to_string(),
    };
    let r = Settings::new(
        "0x3333333333333333333333333333333333333333".to_string(),
        "password".to_string(),
        Some(100),
        Some(100),
        net.clone(),
        net,
    );
    assert!(matches!(r, Err(Error::InvalidConfirmations)));
}

#[test]
fn two_transfers_in_one_block() {
    let h = home(2, 10);
    let b5 = hash(0xb5);
    let logs = vec![transfer_log(&h, hash(1), 10), transfer_log(&h, hash(2), 20)];
    let mut out = Vec::new();
    for log in &logs {
        let p = h.accept_log(log).unwrap();
        let (r, _) = wait(p.tx_hash, 2, Receipt { block_hash: b5, block_number: 5 }, &[6, 7]).unwrap();
        out.push(p.confirm(&r));
    }
    assert_eq!(out.len(), 2);
    assert!(out[0] != out[1]);
    assert!(out[0].tx_hash == hash(1) && out[0].amount == U256::from_u64(10));
    assert!(out[1].tx_hash == hash(2) && out[1].amount == U256::from_u64(20));
}

#[test]
fn settings_defaults_pass() {
    let net = settings::Network {
        ws_uri: "ws://localhost:8546".to_string(),
        token: TOKEN.to_string(),
        relay: HOME_RELAY.to_string(),
    };
    let s = Settings::new("a".to_string(), "p".to_string(), None, None, net.clone(), net).unwrap();
    assert_eq!(s.relay.confirmations, 12);
    assert_eq!(s.relay.anchor_frequency, 100);
    assert_eq!(settings::DEFAULT_CONFIRMATIONS, 12);
}

#[test]
fn settings_zero_anchor_frequency() {
    let net = settings::Network {
        ws_uri: "ws://localhost:8546".to_string(),
        token: TOKEN.to_string(),
        relay: HOME_RELAY.to_string(),
    };
    let r = Settings::new("a".to_string(), "p".to_string(), Some(0), Some(0), net.clone(), net.clone());
    assert!(matches!(r, Err(Error::InvalidAnchorFrequency)));
    let r = Settings::new("a".to_string(), "p".to_string(), Some(101), None, net.clone(), net);
    assert!(matches!(r, Err(Error::InvalidConfirmations)));
}

#[test]
fn network_rejects_bad_addresses() {
    let r = Network::homechain("0x1234", HOME_RELAY, 2, 10);
    match r {
        Err(Error::InvalidAddress(s)) => assert_eq!(s, "0x1234"),
        other => panic!("unexpected {:?}", other),
    }
    let r = Network::sidechain(TOKEN, "zz11111111111111111111111111111111111111", 2, 10);
    match r {
        Err(Error::InvalidAddress(s)) => assert_eq!(s, "zz11111111111111111111111111111111111111"),
        other => panic!("unexpected {:?}", other),
    }
    assert!(matches!(Network::homechain(TOKEN, HOME_RELAY, 2, 0), Err(Error::InvalidAnchorFrequency)));
    assert!(matches!(Network::homechain(TOKEN, HOME_RELAY, 10, 10), Err(Error::InvalidConfirmations)));
    let n = Network::sidechain(TOKEN, HOME_RELAY, 2, 10).unwrap();
    assert_eq!(n.network_type(), NetworkType::Side);
}

#[test]
fn address_round_trip() {
    let a = Address::from_bytes([
        0x00, 0x01, 0x23, 0x45, 0x67, 0x89, 0xab, 0xcd, 0xef, 0xff, 0x10, 0x20, 0x30, 0x40, 0x50,
        0x60, 0x70, 0x80, 0x90, 0xa0,
    ]);
    let text = a.to_hex_string();
    assert_eq!(text, "0x000123456789abcdefff102030405060708090a0");
    assert!(parse_address(&text).unwrap() == a);
    assert!(parse_address(&text[2..]).unwrap() == a);
    let n1 = Network::homechain(&text, &text, 2, 10).unwrap();
    let n2 = Network::homechain(&text[2..], &text[2..], 2, 10).unwrap();
    assert!(n1.token == a && n1.relay == a && n2.token == a && n2.relay == a);
    assert!(parse_address("0x000123456789ABCDEFFF102030405060708090A0").unwrap() == a);
}

#[test]
fn address_parse_edges() {
    assert!(parse_address("").is_none());
    assert!(parse_address("0x").is_none());
    assert!(parse_address("0x000123456789abcdefff102030405060708090a").is_none());
    assert!(parse_address("0x000123456789abcdefff102030405060708090a0a0").is_none());
    assert!(parse_address("0x000123456789abcdefff102030405060708090ag").is_none());
    assert!(parse_address("0x0x0123456789abcdefff102030405060708090a0").is_none());
    assert!(parse_address("0x00 0123456789abcdefff102030405060708090a0").is_none());
    assert!(parse_address("00 0000000000000000000000000000000000000000").is_none());
    assert!(parse_address(" 0000000000000000000000000000000000000000").is_none());
    assert!(parse_address("000000000000000000000000000000000000000\n").is_none());
    let blank_token = "00 0000000000000000000000000000000000000000";
    match Network::homechain(blank_token, HOME_RELAY, 2, 10) {
        Err(Error::InvalidAddress(s)) => assert_eq!(s, blank_token),
        other => panic!("unexpected {:?}", other),
    }
    match Network::homechain(TOKEN, "0x11 11111111111111111111111111111111111111", 2, 10) {
        Err(Error::InvalidAddress(s)) => assert_eq!(s, "0x11 11111111111111111111111111111111111111"),
        other => panic!("unexpected {:?}", other),
    }
    assert_eq!(clean_0x("0xabc"), "abc");
    assert_eq!(clean_0x("abc"), "abc");
    assert_eq!(clean_0x("0"), "0");
    assert_eq!(clean_0x("x0abc"), "x0abc");
}

#[test]
fn parse_decodes_each_byte() {
    let a = parse_address("ff00000000000000000000000000000000000001").unwrap();
    assert_eq!(a.bytes[0], 0xff);
    assert_eq!(a.bytes[19], 0x01);
    assert!(a.bytes[1..19].iter().all(|b| *b == 0));
}

#[test]
fn amount_decoding_round_trip() {
    let mut data = vec![0u8; 32];
    data[30] = 0x01;
    data[31] = 0xf4;
    let x = U256::from_big_endian(&data);
    assert!(x == U256::from_u64(500));
    assert_eq!(x.to_big_endian().to_vec(), data);
    let y = U256::from_u64(u64::MAX);
    assert!(U256::from_big_endian(&y.to_big_endian()) == y);
    assert_eq!(&y.to_big_endian()[24..], &[0xff; 8]);
    let mut longer = data.clone();
    longer.extend_from_slice(&[9, 9, 9]);
    assert!(U256::from_big_endian(&longer) == x);
}

#[test]
fn transfer_log_edge_cases() {
    let h = home(2, 10);
    let mut log = transfer_log(&h, hash(1), 500);
    log.transaction_hash = None;
    assert!(h.accept_log(&log).is_none());
    let mut log = transfer_log(&h, hash(1), 500);
    log.data = vec![1, 2, 3];
    assert!(h.accept_log(&log).is_none());
    let mut log = transfer_log(&h, hash(1), 500);
    log.data.push(0);
    assert!(h.accept_log(&log).is_none());
    let mut log = transfer_log(&h, hash(1), 500);
    log.topics.truncate(2);
    assert!(h.accept_log(&log).is_none());
    let mut log = transfer_log(&h, hash(1), 500);
    log.removed = None;
    let p = h.accept_log(&log).unwrap();
    assert!(p.destination == h.relay);
    assert!(p.amount == U256::from_u64(500));
    assert!(p.tx_hash == hash(1));
}

#[test]
fn confirmation_waits_for_depth() {
    let r = Receipt { block_hash: hash(3), block_number: 100 };
    assert!(wait(hash(1), 12, r, &[100, 105, 111]).is_none());
    let (got, head) = wait(hash(1), 12, r, &[100, 111, 112, 113]).unwrap();
    assert_eq!(head, 112);
    assert_eq!(got.block_number, 100);
    let (_, head) = wait(hash(1), 0, r, &[100]).unwrap();
    assert_eq!(head, 100);
    let r = Receipt { block_hash: hash(3), block_number: u64::MAX - 1 };
    assert!(wait(hash(1), 5, r, &[u64::MAX]).is_none());
}

#[test]
fn confirmation_emits_once() {
    let mut w = ConfirmationWaiter::new(hash(1), 1);
    w.step(WaitEvent::Receipt(Some(Receipt { block_hash: hash(2), block_number: 4 })));
    assert!(matches!(w.step(WaitEvent::TransientError), WaitAction::FetchBlockNumber { after_interval: true }));
    assert!(matches!(w.step(WaitEvent::BlockNumber(5)), WaitAction::Confirmed(_)));
    assert!(matches!(w.step(WaitEvent::BlockNumber(6)), WaitAction::Done));
    assert!(matches!(w.step(WaitEvent::BlockNumber(7)), WaitAction::Done));
    assert!(matches!(w.start(), WaitAction::Done));
    let mut w = ConfirmationWaiter::new(hash(1), 1);
    assert!(matches!(w.step(WaitEvent::TransientError), WaitAction::FetchReceipt { after_interval: true }));
    assert!(matches!(w.step(WaitEvent::BlockNumber(9)), WaitAction::FetchReceipt { after_interval: false }));
    assert!(matches!(w.step(WaitEvent::PermanentError), WaitAction::Abort));
    assert!(matches!(w.step(WaitEvent::BlockNumber(9)), WaitAction::Done));
}

#[test]
fn anchor_cadence_and_no_duplicates() {
    let s = side(12, 100);
    let mut targets = Vec::new();
    for n in 0..1000u64 {
        if let Some(t) = s.anchor_target(&BlockHeader { number: Some(n), hash: None }) {
            assert_eq!(n, t + 12);
            assert_eq!(t % 100, 0);
            targets.push(t);
        }
    }
    assert_eq!(targets, vec![0, 100, 200, 300, 400, 500, 600, 700, 800, 900]);
    assert_eq!(s.anchor_target(&BlockHeader { number: None, hash: Some(hash(1)) }), None);
    assert!(anchor_of_block(&BlockHeader { number: None, hash: Some(hash(1)) }).is_none());
    let mut zero = s;
    zero.anchor_frequency = 0;
    zero.confirmations = 0;
    for n in 0..20u64 {
        assert_eq!(zero.anchor_target(&BlockHeader { number: Some(n), hash: None }), None);
    }
    assert!(anchor_of_block(&BlockHeader { number: Some(1), hash: None }).is_none());
}

#[test]
fn filter_targets_token_and_relay() {
    let h = home(2, 10);
    let f = h.transfer_filter();
    assert!(f.address == h.token);
    assert!(f.event == transfer_event_signature());
    assert_eq!(&f.recipient.bytes[..12], &[0u8; 12]);
    assert_eq!(&f.recipient.bytes[12..], &h.relay.bytes[..]);
    assert!(f.recipient.to_address() == h.relay);
}

#[test]
fn transfer_signature_is_keccak_of_event() {
    let event = Event {
        name: "Transfer".to_string(),
        inputs: vec![
            EventParam { name: "from".to_string(), kind: ParamType::Address, indexed: true },
            EventParam { name: "to".to_string(), kind: ParamType::Address, indexed: true },
            EventParam { name: "value".to_string(), kind: ParamType::Uint(256), indexed: false },
        ],
        anonymous: false,
    };
    assert_eq!(event.signature().0, transfer_event_signature().bytes);
}

#[test]
fn relay_routes_to_peer() {
    let h = home(2, 10);
    let s = side(2, 10);
    let relay = Relay::new(h, s);
    assert_eq!(relay.peer(NetworkType::Home).network_type(), NetworkType::Side);
    assert_eq!(relay.peer(NetworkType::Side).network_type(), NetworkType::Home);
    let t = Transfer {
        destination: s.relay,
        amount: U256::from_u64(1),
        tx_hash: hash(9),
        block_hash: hash(8),
        block_number: U256::from_u64(3),
    };
    assert!(relay.withdrawal_for(NetworkType::Side, &t).contract == h.relay);
    assert!(s.process_withdrawal(&t).contract == s.relay);
}
