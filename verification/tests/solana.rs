use tracking_transfer_token_bot::dedup::DedupCache;
use tracking_transfer_token_bot::solana_adapter::{
    after_verification, begin_scan, check_token_account, scan_for_mint, parse_rpc_list, remember_verified, rpc_endpoints, same_key,
    transaction_retry, transaction_signature, uses_next_client, verify_token_account, worth_fetching, AttemptOutcome, ParsedInstruction,
    RetryDecision, RpcListError, ScanError, ScanStart, TransactionScan, TransferStep,
    MAX_CONCURRENT_REQUESTS, TOKEN_PROGRAM_ID, TRANSACTION_MAX_RETRIES, TRANSACTION_TIMEOUT_SECS,
};
use tracking_transfer_token_bot::VerificationError;
use spl_token::solana_program::program_pack::Pack;
use spl_token::solana_program::pubkey::Pubkey;
use spl_token::state::{Account, AccountState};

const MINT: &str = "SarosY6Vscao718M4A778z4CGtvcwcGef5M9MEH1LGL";
const SOURCE: &str = "GCdgrGgGcczEdfW2P6wLG8jjxzmhtdcPSJQhB2YmMZP9";
const DEST: &str = "9xQeWvG816bUx9EPjHmaT23yvVM2ZWbrrpZb9PusVFin";

fn scan() -> TransactionScan {
    match begin_scan(true, false, MINT, "SIG") {
        Ok(ScanStart::Scan(s)) => s,
        _ => panic!("scan expected"),
    }
}

fn transfer(amount: Option<&str>, token_amount: Option<&str>) -> ParsedInstruction {
    ParsedInstruction {
        program: "spl-token".to_string(),
        source: Some(SOURCE.to_string()),
        destination: Some(DEST.to_string()),
        amount: amount.map(|a| a.to_string()),
        token_amount: token_amount.map(|a| a.to_string()),
    }
}

#[test]
fn rpc_list_parses_json_array() {
    let v = parse_rpc_list("[\"https://a.io\", \"https://b.io\"]").ok().unwrap();
    assert_eq!(v, vec!["https://a.io".to_string(), "https://b.io".to_string()]);
    assert_eq!(parse_rpc_list("{\"a\": 1}").err(), Some(RpcListError::NotAStringList));
    assert_eq!(parse_rpc_list("[1, 2]").err(), Some(RpcListError::NotAStringList));
}

#[test]
fn rpc_endpoints_fall_back_to_own_url() {
    let listed = vec!["https://a.io".to_string()];
    assert_eq!(rpc_endpoints(Some(listed.clone()), "https://own.io".to_string()), listed);
    assert_eq!(
        rpc_endpoints(None, "https://own.io".to_string()),
        vec!["https://own.io".to_string()]
    );
}

#[test]
fn worth_fetching_needs_signature_and_success() {
    assert!(worth_fetching("5RXc", false));
    assert!(!worth_fetching("", false));
    assert!(!worth_fetching("5RXc", true));
}

#[test]
fn begin_scan_outcomes() {
    assert!(matches!(begin_scan(false, false, MINT, "SIG"), Err(ScanError::NoMetadata)));
    assert!(matches!(begin_scan(true, true, MINT, "SIG"), Ok(ScanStart::SkipFailed)));
    assert!(matches!(begin_scan(true, false, "not-a-key", "SIG"), Err(ScanError::InvalidMint)));
    let s = scan();
    let mut expected = [0u8; 32];
    expected.copy_from_slice(&bs58_decode(MINT));
    assert_eq!(s.mint_key_bytes(), expected);
}

// Minimal base58 decoding for the expected key bytes of the test mint.
fn bs58_decode(s: &str) -> Vec<u8> {
    const ALPHABET: &str = "123456789ABCDEFGHJKLMNPQRSTUVWXYZabcdefghijkmnopqrstuvwxyz";
    let mut bytes: Vec<u8> = vec![0; 32];
    for c in s.chars() {
        let mut carry = ALPHABET.find(c).unwrap() as u32;
        for b in bytes.iter_mut().rev() {
            carry += (*b as u32) * 58;
            *b = (carry & 0xff) as u8;
            carry >>= 8;
        }
        assert_eq!(carry, 0);
    }
    bytes
}

#[test]
fn plan_transfer_needs_verification_then_repeats() {
    let mut s = scan();
    let verified = DedupCache::new(10);
    match s.plan_transfer(&transfer(Some("1500"), None), &verified) {
        TransferStep::Verify(p) => {
            assert_eq!(p.source, SOURCE);
            assert_eq!(p.destination, DEST);
            assert_eq!(p.amount, 1500);
            assert_eq!(p.source_key.to_vec(), bs58_decode(SOURCE));
            assert_eq!(p.source_account_key, format!("{}:{}", SOURCE, MINT));
            assert_eq!(p.destination_account_key, format!("{}:{}", DEST, MINT));
            assert_eq!(p.notification_key, format!("{}:{}:1500:SIG", SOURCE, DEST));
        },
        _ => panic!("verification expected"),
    }
    assert!(matches!(
        s.plan_transfer(&transfer(Some("1500"), None), &verified),
        TransferStep::Repeated
    ));
}

#[test]
fn plan_transfer_ready_once_an_account_is_known() {
    let mut s = scan();
    let mut verified = DedupCache::new(10);
    let first = match s.plan_transfer(&transfer(Some("+0042"), None), &verified) {
        TransferStep::Verify(p) => p,
        _ => panic!("verification expected"),
    };
    assert_eq!(first.amount, 42);
    assert_eq!(first.notification_key, format!("{}:{}:42:SIG", SOURCE, DEST));
    remember_verified(&first, &mut verified);
    assert!(verified.contains(&format!("{}:{}", SOURCE, MINT)));
    assert!(verified.contains(&format!("{}:{}", DEST, MINT)));
    assert!(matches!(
        s.plan_transfer(&transfer(None, Some("7")), &verified),
        TransferStep::Ready(p) if p.amount == 7
    ));
}

#[test]
fn after_verification_remembers_only_passed_checks() {
    let mut s = scan();
    let mut verified = DedupCache::new(10);
    let plan = match s.plan_transfer(&transfer(Some("5"), None), &verified) {
        TransferStep::Verify(p) => p,
        _ => panic!("verification expected"),
    };
    assert!(!after_verification(&plan, false, &mut verified));
    assert_eq!(verified.len(), 0);
    assert!(after_verification(&plan, true, &mut verified));
    assert!(verified.contains(&format!("{}:{}", SOURCE, MINT)));
    assert!(verified.contains(&format!("{}:{}", DEST, MINT)));
    assert_eq!(verified.len(), 2);
}

#[test]
fn plan_transfer_rejections() {
    let mut s = scan();
    let verified = DedupCache::new(10);
    let mut other = transfer(Some("1"), None);
    other.program = "system".to_string();
    assert!(matches!(s.plan_transfer(&other, &verified), TransferStep::NotATransfer));
    let mut missing = transfer(None, None);
    assert!(matches!(s.plan_transfer(&missing, &verified), TransferStep::NotATransfer));
    missing = transfer(Some("1"), None);
    missing.destination = None;
    assert!(matches!(s.plan_transfer(&missing, &verified), TransferStep::NotATransfer));
    let mut bad_source = transfer(Some("1"), None);
    bad_source.source = Some("not-a-key".to_string());
    assert!(matches!(s.plan_transfer(&bad_source, &verified), TransferStep::InvalidSource));
    assert!(matches!(
        s.plan_transfer(&transfer(Some("12.5"), None), &verified),
        TransferStep::InvalidAmount
    ));
    assert!(matches!(
        s.plan_transfer(&transfer(Some("18446744073709551616"), None), &verified),
        TransferStep::InvalidAmount
    ));
    // "amount" wins over "tokenAmount.amount" when both are present
    let mut token_2022 = transfer(Some("5"), Some("6"));
    token_2022.program = "spl-token-2022".to_string();
    assert!(matches!(
        s.plan_transfer(&token_2022, &verified),
        TransferStep::Verify(p) if p.amount == 5
    ));
}

#[test]
fn token_account_checks() {
    let program = [1u8; 32];
    let mint = [2u8; 32];
    assert!(matches!(
        check_token_account(&[9u8; 32], &program, Some(mint), &mint),
        Err(VerificationError::InvalidTokenAccount)
    ));
    assert!(matches!(
        check_token_account(&program, &program, None, &mint),
        Err(VerificationError::InvalidTokenAccount)
    ));
    assert!(matches!(
        check_token_account(&program, &program, Some([3u8; 32]), &mint),
        Err(VerificationError::MintMismatch)
    ));
    assert!(check_token_account(&program, &program, Some(mint), &mint).is_ok());
    assert!(same_key(&mint, &[2u8; 32]));
    assert!(!same_key(&mint, &program));
}

#[test]
fn verification_error_messages() {
    assert_eq!(
        VerificationError::RpcError("timeout".to_string()).message(),
        "RPC error: timeout"
    );
    assert_eq!(VerificationError::InvalidTokenAccount.message(), "Invalid token account data");
    assert_eq!(
        VerificationError::MintMismatch.message(),
        "Token account does not belong to the specified mint"
    );
}

#[test]
fn transaction_retry_policy() {
    assert_eq!(TRANSACTION_MAX_RETRIES, 5);
    assert_eq!(TRANSACTION_TIMEOUT_SECS, 5);
    assert_eq!(MAX_CONCURRENT_REQUESTS, 50);
    assert_eq!(TOKEN_PROGRAM_ID, "TokenkegQfeZyiNwAJbNbGKPFXCWuBvf9Ss623VQ5DA");
    assert_eq!(transaction_retry(0, AttemptOutcome::Succeeded), RetryDecision::Finished);
    assert_eq!(transaction_retry(0, AttemptOutcome::Failed), RetryDecision::RetryAfterMillis(50));
    assert_eq!(transaction_retry(4, AttemptOutcome::Failed), RetryDecision::RetryAfterMillis(250));
    assert_eq!(transaction_retry(5, AttemptOutcome::Failed), RetryDecision::GiveUp);
    assert_eq!(transaction_retry(3, AttemptOutcome::TimedOut), RetryDecision::RetryAfterMillis(50));
    assert_eq!(transaction_retry(5, AttemptOutcome::TimedOut), RetryDecision::GiveUp);
    assert!(!uses_next_client(0));
    assert!(uses_next_client(1));
}

#[test]
fn scan_for_mint_with_given_key() {
    assert!(matches!(scan_for_mint("m", None, "S"), Err(ScanError::InvalidMint)));
    let s = scan_for_mint("m", Some([4u8; 32]), "S").ok().unwrap();
    assert_eq!(s.mint_key_bytes(), [4u8; 32]);
}

#[test]
fn plan_checked_transfer_with_given_source_key() {
    let mut s = scan_for_mint("M", Some([4u8; 32]), "S").ok().unwrap();
    let mut verified = DedupCache::new(10);
    assert!(matches!(
        s.plan_checked_transfer("a", "b", None, "1", &verified),
        TransferStep::InvalidSource
    ));
    assert!(matches!(
        s.plan_checked_transfer("a", "b", Some([1u8; 32]), "-1", &verified),
        TransferStep::InvalidAmount
    ));
    verified.record("b:M".to_string());
    match s.plan_checked_transfer("a", "b", Some([1u8; 32]), "0010", &verified) {
        TransferStep::Ready(p) => {
            assert_eq!(p.amount, 10);
            assert_eq!(p.source_key, [1u8; 32]);
            assert_eq!(p.source_account_key, "a:M");
            assert_eq!(p.destination_account_key, "b:M");
            assert_eq!(p.notification_key, "a:b:10:S");
        },
        _ => panic!("ready expected"),
    }
    // "10" and "0010" are the same amount: the same transfer
    assert!(matches!(
        s.plan_checked_transfer("a", "b", Some([1u8; 32]), "10", &verified),
        TransferStep::Repeated
    ));
    assert!(matches!(
        s.plan_checked_transfer("a", "c", Some([1u8; 32]), "10", &DedupCache::new(10)),
        TransferStep::Verify(_)
    ));
}

fn token_account_data(mint: [u8; 32], state: u8) -> Vec<u8> {
    let mut data = vec![0u8; 165];
    data[..32].copy_from_slice(&mint);
    data[32..64].copy_from_slice(&[5u8; 32]);
    data[108] = state;
    data
}

#[test]
fn verify_token_account_unpacks_account_data() {
    let program = [1u8; 32];
    let mint = [2u8; 32];
    let good = token_account_data(mint, 1);
    assert!(verify_token_account(&program, &program, &good, &mint).is_ok());
    assert!(matches!(
        verify_token_account(&program, &program, &good, &[3u8; 32]),
        Err(VerificationError::MintMismatch)
    ));
    assert!(matches!(
        verify_token_account(&[9u8; 32], &program, &good, &mint),
        Err(VerificationError::InvalidTokenAccount)
    ));
    let frozen = token_account_data(mint, 2);
    assert!(verify_token_account(&program, &program, &frozen, &mint).is_ok());
    for bad_state in [0u8, 3] {
        assert!(matches!(
            verify_token_account(&program, &program, &token_account_data(mint, bad_state), &mint),
            Err(VerificationError::InvalidTokenAccount)
        ));
    }
    assert!(matches!(
        verify_token_account(&program, &program, &good[..164], &mint),
        Err(VerificationError::InvalidTokenAccount)
    ));
    let mut with_delegate = good.clone();
    with_delegate[72] = 1;
    assert!(verify_token_account(&program, &program, &with_delegate, &mint).is_ok());
    let mut bad_tag = good.clone();
    bad_tag[129] = 2;
    assert!(matches!(
        verify_token_account(&program, &program, &bad_tag, &mint),
        Err(VerificationError::InvalidTokenAccount)
    ));
}

#[test]
fn verify_token_account_agrees_with_packed_accounts() {
    let account = Account {
        mint: Pubkey::new_from_array([4u8; 32]),
        owner: Pubkey::new_from_array([6u8; 32]),
        amount: 77,
        state: AccountState::Initialized,
        ..Account::default()
    };
    let mut data = vec![0u8; Account::LEN];
    Account::pack(account, &mut data).unwrap();
    let program = [1u8; 32];
    assert!(verify_token_account(&program, &program, &data, &[4u8; 32]).is_ok());
    assert!(matches!(
        verify_token_account(&program, &program, &data, &[6u8; 32]),
        Err(VerificationError::MintMismatch)
    ));
}

fn bs58_decode_len(s: &str, len: usize) -> Vec<u8> {
    const ALPHABET: &str = "123456789ABCDEFGHJKLMNPQRSTUVWXYZabcdefghijkmnopqrstuvwxyz";
    let mut bytes: Vec<u8> = vec![0; len];
    for c in s.chars() {
        let mut carry = ALPHABET.find(c).unwrap() as u32;
        for b in bytes.iter_mut().rev() {
            carry += (*b as u32) * 58;
            *b = (carry & 0xff) as u8;
            carry >>= 8;
        }
        assert_eq!(carry, 0);
    }
    bytes
}

#[test]
fn transaction_signature_parses_base58() {
    let text = "5RXcWBpMmY65wdXjFVkZttVGiRy5HwDUrKD1DQRFtwx1hctmxj3MqqydA2HiqKVLmXf9FZpUMsjpCqFFepJasMsj";
    let sig = transaction_signature(text).ok().unwrap();
    assert_eq!(sig.to_vec(), bs58_decode_len(text, 64));
    assert_eq!(
        transaction_signature("not a signature").err().unwrap(),
        "failed to decode string to signature"
    );
    assert_eq!(
        transaction_signature("abc").err().unwrap(),
        "string decoded to wrong size for signature"
    );
    assert_eq!(
        transaction_signature("").err().unwrap(),
        "string decoded to wrong size for signature"
    );
    let too_long = format!("{}0", "1".repeat(88));
    assert_eq!(
        transaction_signature(&too_long).err().unwrap(),
        "string decoded to wrong size for signature"
    );
    let invalid = "0".repeat(88);
    assert_eq!(
        transaction_signature(&invalid).err().unwrap(),
        "failed to decode string to signature"
    );
}
