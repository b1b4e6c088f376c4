use tracking_transfer_token_bot::dedup::{should_deliver, DedupCache};
use tracking_transfer_token_bot::get_event::{
    address_from_topic, contract_address, contract_address_from, decode_transfer_log, notification_key,
    pause_after_attempt, BalancerError, EndpointRotation, EvmLog, LogError, TransferEvent,
};

fn topic_with_address(fill: u8) -> [u8; 32] {
    let mut t = [0u8; 32];
    for b in t.iter_mut().skip(12) {
        *b = fill;
    }
    t[0] = 0x99; // padding bytes are ignored
    t
}

fn amount_word(value: u128) -> Vec<u8> {
    let mut w = vec![0u8; 16];
    w.extend_from_slice(&value.to_be_bytes());
    w
}

fn transfer_log() -> EvmLog {
    EvmLog {
        topics: vec![[0xdd; 32], topic_with_address(0x11), topic_with_address(0x22)],
        data: amount_word(1000),
        transaction_hash: Some([0xab; 32]),
    }
}

#[test]
fn address_from_topic_takes_last_twenty_bytes() {
    let mut t = [0u8; 32];
    for (i, b) in t.iter_mut().enumerate() {
        *b = i as u8;
    }
    let a = address_from_topic(&t);
    let expected: Vec<u8> = (12u8..32).collect();
    assert_eq!(a.to_vec(), expected);
}

#[test]
fn decode_transfer_log_extracts_fields() {
    let d = decode_transfer_log(&transfer_log()).ok().unwrap();
    assert_eq!(d.from, [0x11; 20]);
    assert_eq!(d.to, [0x22; 20]);
    assert_eq!(d.value.to_vec(), amount_word(1000));
    assert_eq!(d.tx_hash, [0xab; 32]);
    assert_eq!(
        d.notification_key,
        format!("0x{}:0x{}:1000:0x{}", "11".repeat(20), "22".repeat(20), "ab".repeat(32))
    );
}

#[test]
fn decode_transfer_log_ignores_trailing_data_and_missing_hash() {
    let mut log = transfer_log();
    log.data.extend_from_slice(&[7, 7, 7]);
    log.transaction_hash = None;
    let d = decode_transfer_log(&log).ok().unwrap();
    assert_eq!(d.value.to_vec(), amount_word(1000));
    assert_eq!(d.tx_hash, [0u8; 32]);
    assert_eq!(
        d.notification_key,
        format!("0x{}:0x{}:1000:0x{}", "11".repeat(20), "22".repeat(20), "00".repeat(32))
    );
}

#[test]
fn decode_transfer_log_rejects_few_topics() {
    let mut log = transfer_log();
    log.topics.truncate(2);
    assert_eq!(decode_transfer_log(&log).err(), Some(LogError::NotEnoughTopics));
}

#[test]
fn decode_transfer_log_rejects_short_data() {
    let mut log = transfer_log();
    log.data = vec![1u8; 31];
    assert_eq!(decode_transfer_log(&log).err(), Some(LogError::ValueNotDecodable));
    log.data = Vec::new();
    assert_eq!(decode_transfer_log(&log).err(), Some(LogError::ValueNotDecodable));
}

#[test]
fn notification_key_prints_large_amounts_in_decimal() {
    let value = [0xffu8; 32];
    let key = notification_key(&[0x11; 20], &[0x22; 20], &value, &[0x01; 32]);
    assert_eq!(
        key,
        format!(
            "0x{}:0x{}:115792089237316195423570985008687907853269984665640564039457584007913129639935:0x{}",
            "11".repeat(20),
            "22".repeat(20),
            "01".repeat(32)
        )
    );
    let zero = notification_key(&[0; 20], &[0; 20], &[0; 32], &[0; 32]);
    assert_eq!(
        zero,
        format!("0x{}:0x{}:0:0x{}", "00".repeat(20), "00".repeat(20), "00".repeat(32))
    );
}

#[test]
fn notification_keys_of_different_transfers_differ() {
    let value = {
        let mut v = [0u8; 32];
        v[31] = 100;
        v
    };
    let mut other_sender = [0x11u8; 20];
    other_sender[10] = 0x12;
    let a = notification_key(&[0x11; 20], &[0x22; 20], &value, &[0xab; 32]);
    let b = notification_key(&other_sender, &[0x22; 20], &value, &[0xab; 32]);
    assert_ne!(a, b);
    let mut other_hash = [0xabu8; 32];
    other_hash[16] = 0xac;
    let c = notification_key(&[0x11; 20], &[0x22; 20], &value, &other_hash);
    assert_ne!(a, c);
    assert_eq!(a, notification_key(&[0x11; 20], &[0x22; 20], &value, &[0xab; 32]));
}

#[test]
fn second_transfer_differing_in_a_middle_byte_is_not_taken_as_notified() {
    let first = decode_transfer_log(&transfer_log()).ok().unwrap();
    let mut log = transfer_log();
    log.topics[1][20] = 0x33;
    let second = decode_transfer_log(&log).ok().unwrap();
    let mut sent = DedupCache::new(10);
    sent.record(first.notification_key.clone());
    assert!(!should_deliver(&sent, &first.notification_key));
    assert!(should_deliver(&sent, &second.notification_key));
}

#[test]
fn transfer_event_from_decoded_and_default() {
    let d = decode_transfer_log(&transfer_log()).ok().unwrap();
    let e = TransferEvent::from_decoded(&d, 6, Some("https://etherscan.io".to_string()));
    assert_eq!(e.value.to_vec(), amount_word(1000));
    assert_eq!(e.decimal, 6);
    assert_eq!(e.from, [0x11; 20]);
    assert_eq!(e.explorer, Some("https://etherscan.io".to_string()));
    assert_eq!(e.dedup_key(), format!("0x{}", "ab".repeat(32)));
    let z = TransferEvent::default();
    assert_eq!(z.value, [0u8; 32]);
    assert_eq!(z.tx_hash, [0u8; 32]);
    assert_eq!(z.explorer, None);
    assert_eq!(z.decimal, 0);
}

#[test]
fn delivery_check_follows_the_cache() {
    let d = decode_transfer_log(&transfer_log()).ok().unwrap();
    let mut sent = DedupCache::new(10);
    assert!(should_deliver(&sent, &d.notification_key));
    sent.record(d.notification_key.clone());
    assert!(!should_deliver(&sent, &d.notification_key));
}

#[test]
fn endpoint_rotation_tries_each_endpoint_twice() {
    assert_eq!(EndpointRotation::start(0).err(), Some(BalancerError::NoEndpoints));
    let mut rot = EndpointRotation::start(3).ok().unwrap();
    let mut endpoints = Vec::new();
    for i in 0..6 {
        let a = rot.next_attempt().ok().unwrap();
        assert_eq!(a.number, i + 1);
        assert_eq!(a.of, 6);
        endpoints.push(a.endpoint);
    }
    assert_eq!(endpoints, vec![1, 2, 3, 1, 2, 3]);
    assert_eq!(rot.next_attempt().err(), Some(BalancerError::Exhausted));
    assert_eq!(rot.next_attempt().err(), Some(BalancerError::Exhausted));
}

#[test]
fn balancer_messages_and_pauses() {
    assert_eq!(BalancerError::NoEndpoints.message(), "No RPC URLs provided");
    assert_eq!(
        BalancerError::Exhausted.message(),
        "All endpoints exhausted after multiple retries"
    );
    assert_eq!(pause_after_attempt(true), 1);
    assert_eq!(pause_after_attempt(false), 2);
}

#[test]
fn contract_address_parses_hex() {
    let a = contract_address("0xaec945e04baf28b135fa7c640f624f8d90f1c3a6").ok().unwrap();
    assert_eq!(a[0], 0xae);
    assert_eq!(a[19], 0xa6);
    let b = contract_address("0xdAC17F958D2ee523a2206206994597C13D831ec7").ok().unwrap();
    assert_eq!(b[0], 0xda);
    assert_eq!(
        contract_address("0x123").err().unwrap(),
        "Invalid contract address '0x123': Invalid input length"
    );
}

#[test]
fn transfer_event_keeps_amounts_beyond_u128() {
    let mut log = transfer_log();
    log.data = vec![0xff; 32];
    let d = decode_transfer_log(&log).ok().unwrap();
    let e = TransferEvent::from_decoded(&d, 18, None);
    assert_eq!(e.value, [0xff; 32]);
    assert_eq!(e.decimal, 18);
}

#[test]
fn contract_address_accepts_whitespace_and_upper_case_digits() {
    let a = contract_address("0x AEC945E04BAF28B135FA7C640F624F8D90F1C3A6").ok().unwrap();
    assert_eq!(a[0], 0xae);
    assert_eq!(a[19], 0xa6);
    let b = contract_address("aec945e04baf28b135fa7c640f624f8d90f1c3a6").ok().unwrap();
    assert_eq!(a, b);
    assert!(contract_address("0X aec945e04baf28b135fa7c640f624f8d90f1c3a6").is_err());
    assert!(contract_address("0xaec945e04baf28b135fa7c640f624f8d90f1c3a600").is_err());
    assert!(contract_address("0xgec945e04baf28b135fa7c640f624f8d90f1c3a6").is_err());
}

#[test]
fn contract_address_from_given_outcome() {
    assert_eq!(contract_address_from("x", Ok([5u8; 20])), Ok([5u8; 20]));
    assert_eq!(
        contract_address_from("zz", Err("Invalid character".to_string())),
        Err("Invalid contract address 'zz': Invalid character".to_string())
    );
}

#[test]
fn contract_address_error_texts() {
    assert_eq!(
        contract_address("0xzz").err().unwrap(),
        "Invalid contract address '0xzz': Invalid character 'z' at position 0"
    );
    assert_eq!(
        contract_address("0X12").err().unwrap(),
        "Invalid contract address '0X12': Invalid character 'X' at position 1"
    );
    let thirty_nine = format!("0x{}g", "a".repeat(39));
    assert_eq!(
        contract_address(&thirty_nine).err().unwrap(),
        format!("Invalid contract address '{}': Invalid character 'g' at position 39", thirty_nine)
    );
    let forty = format!("0x{} g", "a".repeat(40));
    assert_eq!(
        contract_address(&forty).err().unwrap(),
        format!("Invalid contract address '{}': Invalid input length", forty)
    );
    assert_eq!(
        contract_address("").err().unwrap(),
        "Invalid contract address '': Invalid input length"
    );
}
