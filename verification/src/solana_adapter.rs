use vstd::prelude::*;
use vstd::hash_set::StringHashSet;
use crate::dedup::DedupCache;
use crate::text::{decimal, parsed_u64, text_eq, u64_decimal};
use crate::types::VerificationError;

verus! {

/// Retries of a transaction fetch after the first attempt.
pub const TRANSACTION_MAX_RETRIES: u32 = 5;

/// Seconds an attempt to fetch and process a transaction may take.
pub const TRANSACTION_TIMEOUT_SECS: u64 = 5;

/// Transactions processed at the same time at most.
pub const MAX_CONCURRENT_REQUESTS: usize = 50;

/// How an attempt to fetch and process a transaction ended.
#[derive(PartialEq, Eq, Structural, Debug, Clone, Copy)]
pub enum AttemptOutcome {
    Succeeded,
    Failed,
    TimedOut,
}

/// What follows an attempt.
#[derive(PartialEq, Eq, Structural, Debug, Clone, Copy)]
pub enum RetryDecision {
    /// The transaction was processed.
    Finished,
    /// Try again, with the next client of the pool, after this many
    /// milliseconds.
    RetryAfterMillis(u64),
    /// Stop and report the last error (a timeout as "Request timeout").
    GiveUp,
}

/// Whether attempt `attempt` (from 0) takes the next client of the pool
/// rather than the client the transaction was first given.
pub fn uses_next_client(attempt: u32) -> (b: bool)
    ensures
        b == (attempt > 0),
{
    attempt > 0
}

/// What follows attempt `attempt` (from 0): a failure is retried after
/// `50 * (attempt + 1)` ms, a timeout after 50 ms, while retries remain.
pub fn transaction_retry(attempt: u32, outcome: AttemptOutcome) -> (d: RetryDecision)
    requires
        attempt <= TRANSACTION_MAX_RETRIES,
    ensures
        outcome == AttemptOutcome::Succeeded ==> d == RetryDecision::Finished,
        outcome == AttemptOutcome::Failed && attempt < TRANSACTION_MAX_RETRIES ==> (d matches RetryDecision::RetryAfterMillis(
            ms,
        ) && ms == 50 * (attempt + 1)),
        outcome == AttemptOutcome::TimedOut && attempt < TRANSACTION_MAX_RETRIES ==> d
            == RetryDecision::RetryAfterMillis(50),
        outcome != AttemptOutcome::Succeeded && attempt == TRANSACTION_MAX_RETRIES ==> d
            == RetryDecision::GiveUp,
{
    match outcome {
        AttemptOutcome::Succeeded => RetryDecision::Finished,
        AttemptOutcome::Failed => if attempt < TRANSACTION_MAX_RETRIES {
            RetryDecision::RetryAfterMillis(50 * (attempt as u64 + 1))
        } else {
            RetryDecision::GiveUp
        },
        AttemptOutcome::TimedOut => if attempt < TRANSACTION_MAX_RETRIES {
            RetryDecision::RetryAfterMillis(50)
        } else {
            RetryDecision::GiveUp
        },
    }
}

/// The SPL token program that owns the token accounts of the watched mints.
pub const TOKEN_PROGRAM_ID: &'static str = "TokenkegQfeZyiNwAJbNbGKPFXCWuBvf9Ss623VQ5DA";

/// What `Pubkey::from_str` makes of a text: the 32 key bytes, or `None`
/// when the text is not a base58 public key.
pub uninterp spec fn pubkey_from_base58(text: Seq<char>) -> Option<Seq<u8>>;

/// What `serde_json::from_str::<Vec<String>>` makes of a text: the strings
/// of a JSON array of strings, or `None` when the text is not one.
pub uninterp spec fn json_string_list(text: Seq<char>) -> Option<Seq<Seq<char>>>;

/// Parses a base58 public key (`Pubkey::from_str`), giving its 32 bytes.
///
/// Claimed of solana's parser: its outcome depends on the text alone; which
/// texts parse, and to what, is left to the name `pubkey_from_base58`.
#[verifier::external_body]
fn parse_pubkey(text: &str) -> (r: Option<[u8; 32]>)
    ensures
        r is Some <==> pubkey_from_base58(text@) is Some,
        r matches Some(k) ==> pubkey_from_base58(text@) == Some(k@),
{
    match <solana_sdk::pubkey::Pubkey as std::str::FromStr>::from_str(text) {
        Ok(k) => Some(k.to_bytes()),
        Err(_) => None,
    }
}

/// Parses a token amount (`str::parse::<u64>`).
///
/// Claimed of std, as its documentation states it: an optional `+` followed
/// by decimal digits only, with a value that fits, parses to that value;
/// anything else is an error.
#[verifier::external_body]
fn parse_amount(text: &str) -> (r: Option<u64>)
    ensures
        r == parsed_u64(text@),
{
    text.parse::<u64>().ok()
}

/// Parses a JSON array of strings (`serde_json::from_str::<Vec<String>>`).
///
/// Claimed of serde_json: the outcome depends on the text alone; which texts
/// parse, and to what, is left to the name `json_string_list`.
#[verifier::external_body]
fn parse_string_list(text: &str) -> (r: Option<Vec<String>>)
    ensures
        r is Some <==> json_string_list(text@) is Some,
        r matches Some(v) ==> json_string_list(text@) == Some(
            v@.map_values(|s: String| s@),
        ),
{
    serde_json::from_str::<Vec<String>>(text).ok()
}

/// Why an RPC list cannot be read.
#[derive(PartialEq, Eq, Structural, Debug, Clone, Copy)]
pub enum RpcListError {
    /// The text is not a JSON array of strings.
    NotAStringList,
}

/// The RPC endpoints listed in a JSON text (the content of the RPC list
/// file): a JSON array of URL strings.
pub fn parse_rpc_list(text: &str) -> (r: Result<Vec<String>, RpcListError>)
    ensures
        r is Ok <==> json_string_list(text@) is Some,
        r matches Ok(v) ==> json_string_list(text@) == Some(v@.map_values(|s: String| s@)),
{
    match parse_string_list(text) {
        Some(v) => Ok(v),
        None => Err(RpcListError::NotAStringList),
    }
}

/// The endpoints that the RPC client pool is built from: the listed ones
/// when the list could be read, otherwise only the listener's own RPC URL.
pub fn rpc_endpoints(listed: Option<Vec<String>>, rpc_url: String) -> (v: Vec<String>)
    ensures
        listed matches Some(l) ==> v@ == l@,
        listed is None ==> v@ == seq![rpc_url],
{
    match listed {
        Some(l) => l,
        None => vec![rpc_url],
    }
}

/// Whether a logged transaction is worth fetching: it has a signature and
/// did not fail.
pub fn worth_fetching(signature: &str, failed: bool) -> (b: bool)
    ensures
        b == (signature@.len() > 0 && !failed),
{
    !signature.is_empty() && !failed
}

/// A parsed instruction of a fetched transaction, with the fields of its
/// `info` object that transfers carry (each present only as a string).
pub struct ParsedInstruction {
    /// The program that the instruction calls (e.g. "spl-token").
    pub program: String,
    pub source: Option<String>,
    pub destination: Option<String>,
    /// `info.amount` (plain `transfer`).
    pub amount: Option<String>,
    /// `info.tokenAmount.amount` (`transferChecked`).
    pub token_amount: Option<String>,
}

/// Why a transaction is not scanned.
#[derive(PartialEq, Eq, Structural, Debug, Clone, Copy)]
pub enum ScanError {
    /// The node returned the transaction without metadata.
    NoMetadata,
    /// The watched mint is not a public key.
    InvalidMint,
}

/// How a fetched transaction is handled.
pub enum ScanStart {
    /// Look for transfers of the mint in its instructions.
    Scan(TransactionScan),
    /// The transaction failed: nothing to report.
    SkipFailed,
}

/// The state of scanning one transaction for transfers of one mint.
pub struct TransactionScan {
    mint: String,
    mint_key: [u8; 32],
    signature: String,
    handled: StringHashSet,
}

/// A transfer worth reporting, with the keys under which it is remembered.
pub struct TransferPlan {
    pub source: String,
    pub destination: String,
    /// The amount in token units.
    pub amount: u64,
    /// The source account's key bytes.
    pub source_key: [u8; 32],
    /// Cache keys marking source and destination as accounts of the mint.
    pub source_account_key: String,
    pub destination_account_key: String,
    /// Key marking the notification as sent.
    pub notification_key: String,
}

/// What to do with an instruction.
pub enum TransferStep {
    /// Not a token transfer, or a field is missing.
    NotATransfer,
    /// The source is not a public key.
    InvalidSource,
    /// The amount is not a `u64`.
    InvalidAmount,
    /// The same transfer occurred earlier in this transaction.
    Repeated,
    /// Neither account is known to hold the mint: check the source account
    /// on chain before reporting.
    Verify(TransferPlan),
    /// An account is known to hold the mint: report it.
    Ready(TransferPlan),
}

/// The source, destination and amount text of a token-program transfer.
pub open spec fn transfer_fields(ix: ParsedInstruction) -> Option<(Seq<char>, Seq<char>, Seq<char>)> {
    if ix.program@ != "spl-token"@ && ix.program@ != "spl-token-2022"@ {
        None
    } else {
        let amount = match ix.amount {
            Some(a) => Some(a@),
            None => match ix.token_amount {
                Some(t) => Some(t@),
                None => None,
            },
        };
        match (ix.source, ix.destination, amount) {
            (Some(s), Some(d), Some(a)) => Some((s@, d@, a)),
            _ => None,
        }
    }
}

/// `{source}:{destination}:{amount}`
pub open spec fn transfer_key_text(source: Seq<char>, destination: Seq<char>, amount: u64) -> Seq<
    char,
> {
    source + ":"@ + destination + ":"@ + decimal(amount as nat)
}

/// `{account}:{mint}`
pub open spec fn account_key_text(account: Seq<char>, mint: Seq<char>) -> Seq<char> {
    account + ":"@ + mint
}

/// `{source}:{destination}:{amount}:{signature}`
pub open spec fn notification_key_text(
    source: Seq<char>,
    destination: Seq<char>,
    amount: u64,
    signature: Seq<char>,
) -> Seq<char> {
    transfer_key_text(source, destination, amount) + ":"@ + signature
}

/// A plan for a transfer of `source` to `destination` of `amount` in the
/// transaction `signature` of `mint`.
pub open spec fn plan_matches(
    plan: TransferPlan,
    source: Seq<char>,
    destination: Seq<char>,
    amount: u64,
    source_key: Seq<u8>,
    mint: Seq<char>,
    signature: Seq<char>,
) -> bool {
    &&& plan.source@ == source
    &&& plan.destination@ == destination
    &&& plan.amount == amount
    &&& plan.source_key@ == source_key
    &&& plan.source_account_key@ == account_key_text(source, mint)
    &&& plan.destination_account_key@ == account_key_text(destination, mint)
    &&& plan.notification_key@ == notification_key_text(source, destination, amount, signature)
}

/// The key bytes of an optional key.
pub open spec fn key_view(key: Option<[u8; 32]>) -> Option<Seq<u8>> {
    match key {
        Some(k) => Some(k@),
        None => None,
    }
}

/// The step for a transfer of `source` to `destination` with amount text
/// `amount_text`, whose source parsed to `source_key`, in a scan of `mint` in
/// transaction `signature` that had handled `before` (and handles `after`
/// afterwards), given the accounts known to hold the mint.
pub open spec fn transfer_step(
    before: Set<Seq<char>>,
    after: Set<Seq<char>>,
    mint: Seq<char>,
    signature: Seq<char>,
    verified: Set<Seq<char>>,
    source: Seq<char>,
    destination: Seq<char>,
    source_key: Option<Seq<u8>>,
    amount_text: Seq<char>,
    step: TransferStep,
) -> bool {
    match source_key {
        None => step is InvalidSource && after == before,
        Some(k) => match parsed_u64(amount_text) {
            None => step is InvalidAmount && after == before,
            Some(amount) => {
                let key = transfer_key_text(source, destination, amount);
                &&& after == before.insert(key)
                &&& if before.contains(key) {
                    step is Repeated
                } else if verified.contains(account_key_text(source, mint)) || verified.contains(
                    account_key_text(destination, mint),
                ) {
                    step matches TransferStep::Ready(p) && plan_matches(
                        p,
                        source,
                        destination,
                        amount,
                        k,
                        mint,
                        signature,
                    )
                } else {
                    step matches TransferStep::Verify(p) && plan_matches(
                        p,
                        source,
                        destination,
                        amount,
                        k,
                        mint,
                        signature,
                    )
                }
            },
        },
    }
}

/// A transfer is reported without an on-chain check only when the source or
/// the destination is already known to hold the mint (`{account}:{mint}` is
/// in the verified set); when neither is, a transfer that is not a repeat
/// must be checked first, whatever else the set holds. Either way the plan
/// carries the transfer's own accounts and amount.
pub proof fn lemma_unchecked_report_needs_known_account(
    before: Set<Seq<char>>,
    after: Set<Seq<char>>,
    mint: Seq<char>,
    signature: Seq<char>,
    verified: Set<Seq<char>>,
    source: Seq<char>,
    destination: Seq<char>,
    source_key: Option<Seq<u8>>,
    amount_text: Seq<char>,
    step: TransferStep,
)
    requires
        transfer_step(
            before,
            after,
            mint,
            signature,
            verified,
            source,
            destination,
            source_key,
            amount_text,
            step,
        ),
    ensures
        step is Ready ==> verified.contains(source + ":"@ + mint) || verified.contains(
            destination + ":"@ + mint,
        ),
        step is Ready || step is Verify ==> (!verified.contains(source + ":"@ + mint)
            && !verified.contains(destination + ":"@ + mint) <==> step is Verify),
        step matches TransferStep::Ready(p) ==> p.source@ == source && p.destination@
            == destination && Some(p.amount) == parsed_u64(amount_text),
        step matches TransferStep::Verify(p) ==> p.source@ == source && p.destination@
            == destination && Some(p.amount) == parsed_u64(amount_text),
{
}

/// Plain `transfer` and `transferChecked` instructions are handled alike by
/// the classic token program and Token-2022: for two instructions that
/// differ only in which of the two programs they call, the fields taken are
/// the same; the amount is `info.amount` when present, else
/// `info.tokenAmount.amount`; any other program gives nothing.
pub proof fn lemma_both_token_programs_transfer_alike(
    ix1: ParsedInstruction,
    ix2: ParsedInstruction,
)
    requires
        ix1.program@ == "spl-token"@ || ix1.program@ == "spl-token-2022"@,
        ix2.program@ == "spl-token"@ || ix2.program@ == "spl-token-2022"@,
        ix1.source == ix2.source,
        ix1.destination == ix2.destination,
        ix1.amount == ix2.amount,
        ix1.token_amount == ix2.token_amount,
    ensures
        transfer_fields(ix1) == transfer_fields(ix2),
        ({
            match (ix1.source, ix1.destination, ix1.amount, ix1.token_amount) {
                (Some(s), Some(d), Some(a), _) => transfer_fields(ix1) == Some((s@, d@, a@)),
                (Some(s), Some(d), None, Some(t)) => transfer_fields(ix1) == Some((s@, d@, t@)),
                _ => transfer_fields(ix1) is None,
            }
        }),
{
}

/// Instructions of any program other than the two token programs are not
/// transfers.
pub proof fn lemma_other_programs_are_not_transfers(ix: ParsedInstruction)
    requires
        ix.program@ != "spl-token"@,
        ix.program@ != "spl-token-2022"@,
    ensures
        transfer_fields(ix) is None,
{
}

/// How a fetched transaction is handled: an error without metadata, skipped
/// when it failed, otherwise scanned for transfers of `mint`, which must be a
/// public key.
pub fn begin_scan(has_metadata: bool, failed: bool, mint: &str, signature: &str) -> (r: Result<
    ScanStart,
    ScanError,
>)
    ensures
        !has_metadata ==> r == Err::<ScanStart, ScanError>(ScanError::NoMetadata),
        has_metadata && failed ==> r matches Ok(ScanStart::SkipFailed),
        has_metadata && !failed && pubkey_from_base58(mint@) is None ==> r == Err::<
            ScanStart,
            ScanError,
        >(ScanError::InvalidMint),
        has_metadata && !failed && pubkey_from_base58(mint@) is Some ==> (r matches Ok(
            ScanStart::Scan(scan),
        ) && scan.mint() == mint@ && scan.signature() == signature@ && pubkey_from_base58(mint@)
            == Some(scan.mint_key()) && scan.handled() == Set::<Seq<char>>::empty()),
{
    if !has_metadata {
        return Err(ScanError::NoMetadata);
    }
    if failed {
        return Ok(ScanStart::SkipFailed);
    }
    match scan_for_mint(mint, parse_pubkey(mint), signature) {
        Ok(scan) => Ok(ScanStart::Scan(scan)),
        Err(e) => Err(e),
    }
}

/// The scan of transaction `signature` for transfers of `mint`, whose text
/// parsed to `mint_key` (`None` when it is not a public key).
pub fn scan_for_mint(mint: &str, mint_key: Option<[u8; 32]>, signature: &str) -> (r: Result<
    TransactionScan,
    ScanError,
>)
    ensures
        mint_key is None ==> r matches Err(ScanError::InvalidMint),
        mint_key matches Some(k) ==> (r matches Ok(scan) && scan.mint() == mint@
            && scan.signature() == signature@ && scan.mint_key() == k@ && scan.handled()
            == Set::<Seq<char>>::empty()),
{
    match mint_key {
        Some(mint_key) => Ok(
            TransactionScan {
                mint: String::from_str(mint),
                mint_key,
                signature: String::from_str(signature),
                handled: StringHashSet::new(),
            },
        ),
        None => Err(ScanError::InvalidMint),
    }
}

/// Checks a fetched token account against the watched mint: it must be
/// owned by the token program, its data must be a token account, and that
/// account must hold the mint.
pub fn check_token_account(
    owner: &[u8; 32],
    token_program: &[u8; 32],
    account_mint: Option<[u8; 32]>,
    expected_mint: &[u8; 32],
) -> (r: Result<(), VerificationError>)
    ensures
        owner@ != token_program@ ==> r matches Err(VerificationError::InvalidTokenAccount),
        owner@ == token_program@ && account_mint is None ==> r matches Err(
            VerificationError::InvalidTokenAccount,
        ),
        owner@ == token_program@ ==> (account_mint matches Some(m) ==> (if m@ == expected_mint@ {
            r is Ok
        } else {
            r matches Err(VerificationError::MintMismatch)
        })),
{
    if !same_key(owner, token_program) {
        return Err(VerificationError::InvalidTokenAccount);
    }
    match account_mint {
        None => Err(VerificationError::InvalidTokenAccount),
        Some(m) => if same_key(&m, expected_mint) {
            Ok(())
        } else {
            Err(VerificationError::MintMismatch)
        },
    }
}

/// Whether the four bytes at `at` are a valid `COption` tag: `0` (none) or
/// `1` (some), little-endian.
pub open spec fn coption_tag_valid(data: Seq<u8>, at: int) -> bool {
    (data[at] == 0 || data[at] == 1) && data[at + 1] == 0 && data[at + 2] == 0 && data[at + 3]
        == 0
}

/// What `spl_token::state::Account::unpack` makes of account data, reduced to
/// the mint: the data must be exactly 165 bytes, with valid `COption` tags
/// for the delegate (at 72), the native amount (at 109) and the close
/// authority (at 129), and an initialized or frozen state (byte 108 is `1`
/// or `2`); the mint is then the first 32 bytes.
pub open spec fn token_account_mint(data: Seq<u8>) -> Option<Seq<u8>> {
    if data.len() == 165 && coption_tag_valid(data, 72) && (data[108] == 1 || data[108] == 2)
        && coption_tag_valid(data, 109) && coption_tag_valid(data, 129) {
        Some(data.subrange(0, 32))
    } else {
        None
    }
}

/// Unpacks SPL token account data (`Account::unpack`), giving its mint.
///
/// Claimed of spl-token's unpacking, as its source shows it: it succeeds
/// exactly on 165 bytes whose three `COption` tags are `0` or `1` and whose
/// state byte is initialized (`1`) or frozen (`2`); the mint is the first 32
/// bytes.
#[verifier::external_body]
fn unpack_mint(data: &[u8]) -> (r: Option<[u8; 32]>)
    ensures
        r is Some <==> token_account_mint(data@) is Some,
        r matches Some(m) ==> token_account_mint(data@) == Some(m@),
{
    <spl_token::state::Account as spl_token::solana_program::program_pack::Pack>::unpack(data).ok().map(
        |a| a.mint.to_bytes(),
    )
}

/// Checks fetched account data against the watched mint: the account must
/// be owned by the token program, its data must unpack as a token account,
/// and that account must hold the mint. The data is only unpacked once the
/// owner has been checked.
pub fn verify_token_account(
    owner: &[u8; 32],
    token_program: &[u8; 32],
    data: &[u8],
    expected_mint: &[u8; 32],
) -> (r: Result<(), VerificationError>)
    ensures
        owner@ != token_program@ ==> r matches Err(VerificationError::InvalidTokenAccount),
        owner@ == token_program@ && token_account_mint(data@) is None ==> r matches Err(
            VerificationError::InvalidTokenAccount,
        ),
        owner@ == token_program@ ==> (token_account_mint(data@) matches Some(m) ==> (if m
            == expected_mint@ {
            r is Ok
        } else {
            r matches Err(VerificationError::MintMismatch)
        })),
{
    if !same_key(owner, token_program) {
        return Err(VerificationError::InvalidTokenAccount);
    }
    check_token_account(owner, token_program, unpack_mint(data), expected_mint)
}

/// What `Signature::from_str` makes of a text: the 64 signature bytes, or
/// `None` when the text is not a base58 transaction signature.
pub uninterp spec fn signature_from_base58(text: Seq<char>) -> Option<Seq<u8>>;

/// A character of the base58 alphabet: digits but `0`, letters but `I`,
/// `O` and `l`.
pub open spec fn is_base58_char(c: char) -> bool {
    ||| ('1' <= c && c <= '9')
    ||| ('A' <= c && c <= 'H')
    ||| ('J' <= c && c <= 'N')
    ||| ('P' <= c && c <= 'Z')
    ||| ('a' <= c && c <= 'k')
    ||| ('m' <= c && c <= 'z')
}

/// The error text of `Signature::from_str` on a text it refuses: a text of
/// at most 88 bytes with a character outside the base58 alphabet cannot be
/// decoded; any other refused text decodes to the wrong size.
pub open spec fn signature_error_text(text: Seq<char>) -> Seq<char> {
    if vstd::utf8::encode_utf8(text).len() <= 88 && exists|i: int|
        0 <= i < text.len() && !is_base58_char(#[trigger] text[i]) {
        "failed to decode string to signature"@
    } else {
        "string decoded to wrong size for signature"@
    }
}

/// Parses a base58 transaction signature (`Signature::from_str`), giving
/// its 64 bytes, or the parser's error text.
///
/// Claimed of solana's parser: its outcome depends on the text alone; which
/// texts parse, and to what, is left to the name `signature_from_base58`.
/// When it fails, it reports a text longer than 88 bytes as the wrong size,
/// then any character outside the base58 alphabet as undecodable, and every
/// other failure as the wrong size (the error's `Display`).
#[verifier::external_body]
fn parse_signature(text: &str) -> (r: Result<[u8; 64], String>)
    ensures
        r is Ok <==> signature_from_base58(text@) is Some,
        r matches Ok(s) ==> signature_from_base58(text@) == Some(s@),
        r matches Err(m) ==> m@ == signature_error_text(text@),
{
    match <solana_sdk::signature::Signature as std::str::FromStr>::from_str(text) {
        Ok(s) => Ok(<[u8; 64]>::from(s)),
        Err(e) => Err(e.to_string()),
    }
}

/// The signature of the transaction to fetch, from its text as the log
/// subscription gave it; the parser's error when it is not a signature.
pub fn transaction_signature(text: &str) -> (r: Result<[u8; 64], String>)
    ensures
        r is Ok <==> signature_from_base58(text@) is Some,
        r matches Ok(s) ==> signature_from_base58(text@) == Some(s@),
        r matches Err(m) ==> m@ == signature_error_text(text@),
{
    parse_signature(text)
}

/// Whether two keys are the same bytes.
pub fn same_key(a: &[u8; 32], b: &[u8; 32]) -> (r: bool)
    ensures
        r == (a@ == b@),
{
    let mut i: usize = 0;
    while i < 32
        invariant
            i <= 32,
            forall|j: int| 0 <= j < i ==> a@[j] == b@[j],
        decreases 32 - i,
    {
        if a[i] != b[i] {
            return false;
        }
        i = i + 1;
    }
    proof {
        assert(a@ =~= b@);
    }
    true
}

/// Once the source account of a planned transfer has been checked, both
/// accounts are remembered as holding the mint.
pub fn remember_verified(plan: &TransferPlan, verified: &mut DedupCache)
    ensures
        final(verified)@ == crate::dedup::bounded(
            old(verified)@.insert(plan.source_account_key@).insert(plan.destination_account_key@),
            old(verified).limit(),
        ),
        final(verified).limit() == old(verified).limit(),
        final(verified)@.len() <= final(verified).limit(),
{
    verified.record_pair(plan.source_account_key.clone(), plan.destination_account_key.clone());
}

/// A transfer handled in a scan is reported at most once in it: once its
/// source, destination and amount are handled, planning it again in the same
/// scan gives `Repeated` and handles nothing new.
pub proof fn lemma_transfer_reported_once_per_transaction(
    before: Set<Seq<char>>,
    after: Set<Seq<char>>,
    mint: Seq<char>,
    signature: Seq<char>,
    verified: Set<Seq<char>>,
    source: Seq<char>,
    destination: Seq<char>,
    source_key: Seq<u8>,
    amount_text: Seq<char>,
    step: TransferStep,
)
    requires
        parsed_u64(amount_text) is Some,
        before.contains(transfer_key_text(source, destination, parsed_u64(amount_text)->0)),
        transfer_step(
            before,
            after,
            mint,
            signature,
            verified,
            source,
            destination,
            Some(source_key),
            amount_text,
            step,
        ),
    ensures
        step is Repeated,
        after == before,
{
    let key = transfer_key_text(source, destination, parsed_u64(amount_text)->0);
    assert(before.insert(key) =~= before);
}

/// What follows the on-chain check of a planned transfer's source account:
/// when it passed, both accounts are remembered as holding the mint and the
/// transfer goes on to be reported; when it failed, nothing is remembered
/// and the transfer is dropped.
pub fn after_verification(plan: &TransferPlan, passed: bool, verified: &mut DedupCache) -> (proceed:
    bool)
    ensures
        proceed == passed,
        passed ==> final(verified)@ == crate::dedup::bounded(
            old(verified)@.insert(plan.source_account_key@).insert(plan.destination_account_key@),
            old(verified).limit(),
        ),
        passed ==> final(verified)@.len() <= final(verified).limit(),
        !passed ==> final(verified)@ == old(verified)@,
        final(verified).limit() == old(verified).limit(),
{
    if passed {
        remember_verified(plan, verified);
    }
    passed
}

impl TransactionScan {
    /// The watched mint, as configured.
    pub closed spec fn mint(&self) -> Seq<char> {
        self.mint@
    }

    /// The signature of the scanned transaction.
    pub closed spec fn signature(&self) -> Seq<char> {
        self.signature@
    }

    /// The mint's key bytes.
    pub closed spec fn mint_key(&self) -> Seq<u8> {
        self.mint_key@
    }

    /// The transfers handled so far in this transaction, by transfer key.
    pub closed spec fn handled(&self) -> Set<Seq<char>> {
        self.handled@
    }

    /// The mint's key bytes.
    pub fn mint_key_bytes(&self) -> (k: [u8; 32])
        ensures
            k@ == self.mint_key(),
    {
        self.mint_key
    }

    /// The step for one instruction, recording the transfer as handled for
    /// this transaction when it is reported further.
    pub fn plan_transfer(&mut self, ix: &ParsedInstruction, verified: &DedupCache) -> (step:
        TransferStep)
        ensures
            final(self).mint() == old(self).mint(),
            final(self).mint_key() == old(self).mint_key(),
            final(self).signature() == old(self).signature(),
            match transfer_fields(*ix) {
                None => step is NotATransfer && final(self).handled() == old(self).handled(),
                Some((s, d, a)) => transfer_step(
                    old(self).handled(),
                    final(self).handled(),
                    old(self).mint(),
                    old(self).signature(),
                    verified@,
                    s,
                    d,
                    pubkey_from_base58(s),
                    a,
                    step,
                ),
            },
    {
        if !(text_eq(&ix.program, "spl-token") || text_eq(&ix.program, "spl-token-2022")) {
            return TransferStep::NotATransfer;
        }
        let amount_text = match &ix.amount {
            Some(a) => a,
            None => match &ix.token_amount {
                Some(t) => t,
                None => {
                    return TransferStep::NotATransfer;
                },
            },
        };
        let (source, destination) = match (&ix.source, &ix.destination) {
            (Some(s), Some(d)) => (s, d),
            _ => {
                return TransferStep::NotATransfer;
            },
        };
        let source_key = parse_pubkey(source.as_str());
        self.plan_checked_transfer(
            source.as_str(),
            destination.as_str(),
            source_key,
            amount_text.as_str(),
            verified,
        )
    }

    /// The step for a transfer whose source has been parsed to `source_key`
    /// (`None` when it is not a public key).
    pub fn plan_checked_transfer(
        &mut self,
        source: &str,
        destination: &str,
        source_key: Option<[u8; 32]>,
        amount_text: &str,
        verified: &DedupCache,
    ) -> (step: TransferStep)
        ensures
            final(self).mint() == old(self).mint(),
            final(self).mint_key() == old(self).mint_key(),
            final(self).signature() == old(self).signature(),
            transfer_step(
                old(self).handled(),
                final(self).handled(),
                old(self).mint(),
                old(self).signature(),
                verified@,
                source@,
                destination@,
                key_view(source_key),
                amount_text@,
                step,
            ),
    {
        let source_key = match source_key {
            Some(k) => k,
            None => {
                return TransferStep::InvalidSource;
            },
        };
        let amount = match parse_amount(amount_text) {
            Some(n) => n,
            None => {
                return TransferStep::InvalidAmount;
            },
        };
        let amount_digits = u64_decimal(amount);
        let mut transfer_key = String::from_str(source);
        transfer_key.append(":");
        transfer_key.append(destination);
        transfer_key.append(":");
        transfer_key.append(amount_digits.as_str());
        let mut notification_key = transfer_key.clone();
        notification_key.append(":");
        notification_key.append(self.signature.as_str());
        if !self.handled.insert(transfer_key) {
            return TransferStep::Repeated;
        }
        let mut source_account_key = String::from_str(source);
        source_account_key.append(":");
        source_account_key.append(self.mint.as_str());
        let mut destination_account_key = String::from_str(destination);
        destination_account_key.append(":");
        destination_account_key.append(self.mint.as_str());
        let known = verified.contains(source_account_key.as_str()) || verified.contains(
            destination_account_key.as_str(),
        );
        let plan = TransferPlan {
            source: String::from_str(source),
            destination: String::from_str(destination),
            amount,
            source_key,
            source_account_key,
            destination_account_key,
            notification_key,
        };
        if known {
            TransferStep::Ready(plan)
        } else {
            TransferStep::Verify(plan)
        }
    }
}

} // verus!
