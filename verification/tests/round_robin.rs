use tracking_transfer_token_bot::RoundRobin;

#[test]
fn test_round_robin_rotation() {
    let rpc_urls = vec![
        "https://rpc1.com".to_string(),
        "https://rpc2.com".to_string(),
        "https://rpc3.com".to_string(),
    ];
    let rr = RoundRobin::new(rpc_urls.clone());

    // Test that it rotates through all URLs
    assert_eq!(rr.next(), Some("https://rpc1.com".to_string()));
    assert_eq!(rr.next(), Some("https://rpc2.com".to_string()));
    assert_eq!(rr.next(), Some("https://rpc3.com".to_string()));
    assert_eq!(rr.next(), Some("https://rpc1.com".to_string())); // Should wrap around
    assert_eq!(rr.next(), Some("https://rpc2.com".to_string()));
}

#[test]
fn round_robin_item_at_uses_ticket_modulo_len() {
    let rr = RoundRobin::new(vec![10u64, 20, 30]);
    assert_eq!(rr.item_at(0), Some(10));
    assert_eq!(rr.item_at(4), Some(20));
    assert_eq!(rr.item_at(5), Some(30));
    assert_eq!(rr.item_at(usize::MAX), Some(10)); // usize::MAX % 3 == 0
}

#[test]
fn round_robin_empty_gives_nothing() {
    let rr: RoundRobin<String> = RoundRobin::new(Vec::new());
    assert!(rr.is_empty());
    assert_eq!(rr.len(), 0);
    assert_eq!(rr.next(), None);
    assert_eq!(rr.item_at(7), None);
}

#[test]
fn round_robin_len_and_is_empty() {
    let rr = RoundRobin::new(vec!['a', 'b']);
    assert_eq!(rr.len(), 2);
    assert!(!rr.is_empty());
}

#[test]
fn round_robin_window_visits_each_item_once() {
    // Any `len` consecutive calls hand out every item exactly once.
    let rr = RoundRobin::new(vec![1u8, 2, 3, 4]);
    rr.next();
    rr.next();
    let mut seen: Vec<u8> = (0..4).map(|_| rr.next().unwrap()).collect();
    assert_eq!(seen, vec![3, 4, 1, 2]);
    seen.sort();
    assert_eq!(seen, vec![1, 2, 3, 4]);
}

#[test]
fn round_robin_single_item_always_returned() {
    let rr = RoundRobin::new(vec!["only".to_string()]);
    for _ in 0..5 {
        assert_eq!(rr.next(), Some("only".to_string()));
    }
}
