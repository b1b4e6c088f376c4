use vstd::prelude::*;
use crate::send_message_to_telegram::{lower_hex, lower_hex_text};
use crate::text::starts_with;
use crate::text::decimal;
use crate::text::{hex_bytes, lemma_hex_bytes_len, lemma_hex_bytes_injective, lemma_decimal_injective};

verus! {

/// Why the endpoint rotation of a listener stops.
#[derive(PartialEq, Eq, Structural, Debug, Clone, Copy)]
pub enum BalancerError {
    /// The listener has no endpoint.
    NoEndpoints,
    /// Every endpoint was tried twice.
    Exhausted,
}

impl BalancerError {
    /// The description of the error.
    pub fn message(&self) -> (s: String)
        ensures
            *self == BalancerError::NoEndpoints ==> s@ == "No RPC URLs provided"@,
            *self == BalancerError::Exhausted ==> s@
                == "All endpoints exhausted after multiple retries"@,
    {
        match self {
            BalancerError::NoEndpoints => String::from_str("No RPC URLs provided"),
            BalancerError::Exhausted => String::from_str(
                "All endpoints exhausted after multiple retries",
            ),
        }
    }
}

/// One connection attempt of a listener.
#[derive(PartialEq, Eq, Structural, Debug, Clone, Copy)]
pub struct Attempt {
    /// Which attempt this is, from 1.
    pub number: usize,
    /// How many attempts there are in all.
    pub of: usize,
    /// Which endpoint the round-robin selector serves for it, from 1.
    pub endpoint: usize,
}

/// The schedule of connection attempts of a listener over its endpoints:
/// each endpoint is tried twice, in round-robin order.
pub struct EndpointRotation {
    endpoints: usize,
    max_attempts: usize,
    made: usize,
}

impl EndpointRotation {
    #[verifier::type_invariant]
    spec fn consistent(self) -> bool {
        &&& self.endpoints > 0
        &&& self.max_attempts == 2 * self.endpoints
        &&& self.made <= self.max_attempts
    }

    /// The number of endpoints.
    pub closed spec fn endpoints(&self) -> nat {
        self.endpoints as nat
    }

    /// The number of attempts allowed.
    pub closed spec fn max_attempts(&self) -> nat {
        self.max_attempts as nat
    }

    /// The number of attempts made so far.
    pub closed spec fn made(&self) -> nat {
        self.made as nat
    }

    /// The schedule for `endpoints` endpoints; none when there are none.
    pub fn start(endpoints: usize) -> (r: Result<Self, BalancerError>)
        requires
            endpoints <= usize::MAX / 2,
        ensures
            endpoints == 0 ==> r == Err::<Self, BalancerError>(BalancerError::NoEndpoints),
            endpoints > 0 ==> (r matches Ok(s) && s.endpoints() == endpoints && s.max_attempts()
                == 2 * endpoints && s.made() == 0),
    {
        if endpoints == 0 {
            return Err(BalancerError::NoEndpoints);
        }
        Ok(EndpointRotation { endpoints, max_attempts: endpoints * 2, made: 0 })
    }

    /// The next attempt, or `Exhausted` once every attempt has been made.
    pub fn next_attempt(&mut self) -> (r: Result<Attempt, BalancerError>)
        ensures
            final(self).endpoints() == old(self).endpoints(),
            final(self).max_attempts() == old(self).max_attempts(),
            final(self).made() <= final(self).max_attempts(),
            old(self).made() < old(self).max_attempts() ==> (r matches Ok(a) && a.number
                == old(self).made() + 1 && a.of == old(self).max_attempts() && a.endpoint
                == old(self).made() % old(self).endpoints() + 1 && final(self).made() == old(
                self,
            ).made() + 1),
            old(self).made() >= old(self).max_attempts() ==> (r == Err::<Attempt, BalancerError>(
                BalancerError::Exhausted,
            ) && final(self).made() == old(self).made()),
    {
        proof {
            use_type_invariant(&*self);
        }
        if self.made >= self.max_attempts {
            return Err(BalancerError::Exhausted);
        }
        let attempt = Attempt {
            number: self.made + 1,
            of: self.max_attempts,
            endpoint: self.made % self.endpoints + 1,
        };
        self.made = self.made + 1;
        Ok(attempt)
    }
}

/// Every endpoint is tried twice over the whole schedule: attempts `k` and
/// `k + endpoints` (counted from 0, for `k < endpoints`) both go to endpoint
/// `k + 1`.
pub proof fn lemma_each_endpoint_tried_twice(endpoints: nat, k: nat)
    requires
        k < endpoints,
    ensures
        k % endpoints + 1 == k + 1,
        (k + endpoints) % endpoints + 1 == k + 1,
{
    vstd::arithmetic::div_mod::lemma_small_mod(k, endpoints);
    vstd::arithmetic::div_mod::lemma_mod_add_multiples_vanish(k as int, endpoints as int);
}

/// Seconds to wait before the next attempt: one after a connection that
/// ended, two after one that failed.
pub fn pause_after_attempt(ended_normally: bool) -> (secs: u64)
    ensures
        ended_normally ==> secs == 1,
        !ended_normally ==> secs == 2,
{
    if ended_normally {
        1
    } else {
        2
    }
}

/// Whitespace that the hexadecimal parser skips.
pub open spec fn is_hex_space(c: char) -> bool {
    c == ' ' || c == '\r' || c == '\n' || c == '\t'
}

/// A hexadecimal digit, in either case.
pub open spec fn is_hex_digit(c: char) -> bool {
    ('0' <= c && c <= '9') || ('a' <= c && c <= 'f') || ('A' <= c && c <= 'F')
}

/// The value of a hexadecimal digit.
pub open spec fn hex_digit_value(c: char) -> int {
    if '0' <= c && c <= '9' {
        c as int - 48
    } else if 'a' <= c && c <= 'f' {
        c as int - 87
    } else {
        c as int - 55
    }
}

/// An address text without its one leading `0x`, if it has one.
pub open spec fn hex_body(text: Seq<char>) -> Seq<char> {
    if starts_with(text, "0x"@) {
        text.skip(2)
    } else {
        text
    }
}

/// The characters of an address text that carry digits: after one leading
/// `0x`, if there is one, every character but the skipped whitespace.
pub open spec fn address_digits(text: Seq<char>) -> Seq<char> {
    hex_body(text).filter(|c: char| !is_hex_space(c))
}

/// Whether `p` is the first position of `body` holding neither a
/// hexadecimal digit nor skipped whitespace.
pub open spec fn first_bad_hex_char(body: Seq<char>, p: int) -> bool {
    &&& 0 <= p < body.len()
    &&& !(is_hex_digit(body[p]) || is_hex_space(body[p]))
    &&& forall|q: int| 0 <= q < p ==> is_hex_digit(#[trigger] body[q]) || is_hex_space(body[q])
}

/// Whether the parser reaches the first bad character of `body` at `p`
/// while still reading the twenty bytes: fewer than forty digits precede it.
pub open spec fn bad_char_reached(body: Seq<char>, p: int) -> bool {
    first_bad_hex_char(body, p) && body.take(p).filter(|c: char| is_hex_digit(c)).len() < 40
}

/// The error text of `Address::from_str` on a text it refuses: a bad
/// character met while the twenty bytes are read is reported with its
/// position after the `0x`; anything else (too few or too many digits, or a
/// bad character after forty digits) is a length error.
pub open spec fn address_error_text(text: Seq<char>) -> Seq<char> {
    let body = hex_body(text);
    if exists|p: int| bad_char_reached(body, p) {
        let p = choose|p: int| bad_char_reached(body, p);
        "Invalid character '"@ + seq![body[p]] + "' at position "@ + decimal(p as nat)
    } else {
        "Invalid input length"@
    }
}

/// What `Address::from_str` makes of a text: an optional `0x`, then exactly
/// forty hexadecimal digits (whitespace between them is skipped), read two
/// by two into twenty bytes; `None` for anything else.
pub open spec fn address_from_hex(text: Seq<char>) -> Option<Seq<u8>> {
    let d = address_digits(text);
    if d.len() == 40 && (forall|i: int| 0 <= i < 40 ==> is_hex_digit(#[trigger] d[i])) {
        Some(
            Seq::new(
                20,
                |i: int| (hex_digit_value(d[2 * i]) * 16 + hex_digit_value(d[2 * i + 1])) as u8,
            ),
        )
    } else {
        None
    }
}

/// Parses a hexadecimal contract address (`Address::from_str`), giving its
/// bytes, or the parser's error text.
///
/// Claimed of ethers-core (fixed-hash's `FromStr`, over rustc-hex's
/// decoder): it strips one leading `0x`, skips spaces, tabs, carriage
/// returns and line feeds, and accepts exactly forty hexadecimal digits,
/// read two by two as the bytes of the address; any other character, or
/// another number of digits, is an error. The error's text is rustc-hex's
/// `Display`: the first bad character and its byte position, when it is met
/// before forty digits have been read, else the length error.
#[verifier::external_body]
fn parse_address(text: &str) -> (r: Result<[u8; 20], String>)
    ensures
        r is Ok <==> address_from_hex(text@) is Some,
        r matches Ok(a) ==> address_from_hex(text@) == Some(a@),
        r matches Err(m) ==> m@ == address_error_text(text@),
{
    match <ethers_core::types::Address as std::str::FromStr>::from_str(text) {
        Ok(a) => Ok(a.to_fixed_bytes()),
        Err(e) => Err(e.to_string()),
    }
}

/// The watched contract's address, or the error to report when the
/// configured text is not an address.
pub fn contract_address(text: &str) -> (r: Result<[u8; 20], String>)
    ensures
        r is Ok <==> address_from_hex(text@) is Some,
        r matches Ok(a) ==> address_from_hex(text@) == Some(a@),
        r matches Err(m) ==> m@ == "Invalid contract address '"@ + text@ + "': "@
            + address_error_text(text@),
{
    contract_address_from(text, parse_address(text))
}

/// The watched contract's address from the parser's outcome on `text`: the
/// address, or the error to report, naming the text and the parser's error.
pub fn contract_address_from(text: &str, parsed: Result<[u8; 20], String>) -> (r: Result<
    [u8; 20],
    String,
>)
    ensures
        parsed matches Ok(a) ==> r == Ok::<[u8; 20], String>(a),
        parsed matches Err(detail) ==> (r matches Err(m) && m@ == "Invalid contract address '"@
            + text@ + "': "@ + detail@),
{
    match parsed {
        Ok(a) => Ok(a),
        Err(detail) => {
            let mut m = String::from_str("Invalid contract address '");
            m.append(text);
            m.append("': ");
            m.append(detail.as_str());
            Err(m)
        },
    }
}

/// The value of big-endian bytes.
pub open spec fn big_endian(bytes: Seq<u8>) -> nat
    decreases bytes.len(),
{
    if bytes.len() == 0 {
        0
    } else {
        big_endian(bytes.drop_last()) * 256 + bytes.last() as nat
    }
}

/// A log entry of the watched contract, as the node delivers it.
pub struct EvmLog {
    /// Indexed topics: the event signature, then `from` and `to`.
    pub topics: Vec<[u8; 32]>,
    /// Non-indexed data: the ABI-encoded amount.
    pub data: Vec<u8>,
    /// Hash of the transaction that emitted the log, when known.
    pub transaction_hash: Option<[u8; 32]>,
}

/// Why a log is not turned into a transfer.
#[derive(PartialEq, Eq, Structural, Debug, Clone, Copy)]
pub enum LogError {
    /// Fewer than three topics: no `from` and `to`.
    NotEnoughTopics,
    /// The data does not ABI-decode as a `uint256`.
    ValueNotDecodable,
}

/// A `Transfer` log with its fields extracted.
pub struct DecodedTransfer {
    pub from: [u8; 20],
    pub to: [u8; 20],
    /// The amount in token units, 32 bytes big-endian.
    pub value: [u8; 32],
    pub tx_hash: [u8; 32],
    /// Key under which the transfer is remembered once notified.
    pub notification_key: String,
}

/// A decoded ERC-20 Transfer event, ready for the notification workers.
pub struct TransferEvent {
    pub from: [u8; 20],
    pub to: [u8; 20],
    /// The amount in the token's smallest units, 32 bytes big-endian; the
    /// human-readable value is this divided by ten to the power of
    /// `decimal`.
    pub value: [u8; 32],
    pub decimal: u8,
    pub tx_hash: [u8; 32],
    pub explorer: Option<String>,
}

/// The address that a topic holds: its last twenty bytes.
pub open spec fn topic_address(topic: Seq<u8>) -> Seq<u8> {
    topic.subrange(12, 32)
}

/// The text of the key that marks a transfer as notified: the full
/// hexadecimal forms of sender and receiver, the decimal amount and the full
/// hexadecimal transaction hash, joined by `:`.
///
/// The full forms are used on purpose, not the abbreviated `{}` display of
/// addresses and hashes (`0x1234…abcd`): with that display, two transfers of
/// one amount whose addresses and hash share their first and last two bytes
/// would share a key, and the second would be dropped as already notified.
/// With full forms, distinct transfers have distinct keys
/// (`lemma_distinct_transfers_have_distinct_keys`).
pub open spec fn notification_key_text(
    from: Seq<u8>,
    to: Seq<u8>,
    value: Seq<u8>,
    tx_hash: Seq<u8>,
) -> Seq<char> {
    lower_hex_text(from) + ":"@ + lower_hex_text(to) + ":"@ + decimal(big_endian(value)) + ":"@
        + lower_hex_text(tx_hash)
}

/// Big-endian bytes of one length with the same value are the same bytes.
proof fn lemma_big_endian_injective(a: Seq<u8>, b: Seq<u8>)
    requires
        a.len() == b.len(),
        big_endian(a) == big_endian(b),
    ensures
        a == b,
    decreases a.len(),
{
    if a.len() > 0 {
        let x = big_endian(a.drop_last());
        let y = big_endian(b.drop_last());
        assert(x == y && a.last() == b.last()) by (nonlinear_arith)
            requires
                x * 256 + a.last() as nat == y * 256 + b.last() as nat,
                a.last() < 256,
                b.last() < 256,
        {
            if x < y {
                assert(x * 256 + 256 <= y * 256);
            } else if y < x {
                assert(y * 256 + 256 <= x * 256);
            }
        }
        lemma_big_endian_injective(a.drop_last(), b.drop_last());
        assert(a =~= a.drop_last().push(a.last()));
        assert(b =~= b.drop_last().push(b.last()));
    }
}

/// Two transfers share a notification key only when they are the same
/// transfer: same sender, receiver, amount and transaction hash. So a
/// transfer is never taken for another one that was already notified.
pub proof fn lemma_distinct_transfers_have_distinct_keys(
    from1: Seq<u8>,
    to1: Seq<u8>,
    value1: Seq<u8>,
    tx_hash1: Seq<u8>,
    from2: Seq<u8>,
    to2: Seq<u8>,
    value2: Seq<u8>,
    tx_hash2: Seq<u8>,
)
    requires
        from1.len() == 20,
        to1.len() == 20,
        value1.len() == 32,
        tx_hash1.len() == 32,
        from2.len() == 20,
        to2.len() == 20,
        value2.len() == 32,
        tx_hash2.len() == 32,
        notification_key_text(from1, to1, value1, tx_hash1) == notification_key_text(
            from2,
            to2,
            value2,
            tx_hash2,
        ),
    ensures
        from1 == from2,
        to1 == to2,
        value1 == value2,
        tx_hash1 == tx_hash2,
{
    reveal_strlit("0x");
    reveal_strlit(":");
    lemma_hex_bytes_len(from1);
    lemma_hex_bytes_len(to1);
    lemma_hex_bytes_len(tx_hash1);
    lemma_hex_bytes_len(from2);
    lemma_hex_bytes_len(to2);
    lemma_hex_bytes_len(tx_hash2);
    let d1 = decimal(big_endian(value1));
    let d2 = decimal(big_endian(value2));
    let k1 = notification_key_text(from1, to1, value1, tx_hash1);
    let k2 = notification_key_text(from2, to2, value2, tx_hash2);
    assert(k1.len() == 153 + d1.len());
    assert(k2.len() == 153 + d2.len());
    let n = d1.len() as int;
    assert(hex_bytes(from1) =~= k1.subrange(2, 42));
    assert(hex_bytes(from2) =~= k2.subrange(2, 42));
    assert(hex_bytes(to1) =~= k1.subrange(45, 85));
    assert(hex_bytes(to2) =~= k2.subrange(45, 85));
    assert(d1 =~= k1.subrange(86, 86 + n));
    assert(d2 =~= k2.subrange(86, 86 + n));
    assert(hex_bytes(tx_hash1) =~= k1.subrange(89 + n, 153 + n));
    assert(hex_bytes(tx_hash2) =~= k2.subrange(89 + n, 153 + n));
    lemma_hex_bytes_injective(from1, from2);
    lemma_hex_bytes_injective(to1, to2);
    lemma_hex_bytes_injective(tx_hash1, tx_hash2);
    lemma_decimal_injective(big_endian(value1), big_endian(value2));
    lemma_big_endian_injective(value1, value2);
}

/// Whether sender, receiver, amount and hash have the sizes of a transfer.
pub open spec fn transfer_sized(t: (Seq<u8>, Seq<u8>, Seq<u8>, Seq<u8>)) -> bool {
    t.0.len() == 20 && t.1.len() == 20 && t.2.len() == 32 && t.3.len() == 32
}

/// The notification key of a transfer given as (sender, receiver, amount,
/// transaction hash).
pub open spec fn transfer_key(t: (Seq<u8>, Seq<u8>, Seq<u8>, Seq<u8>)) -> Seq<char> {
    notification_key_text(t.0, t.1, t.2, t.3)
}

/// When the keys held are exactly those of the transfers delivered so far, a
/// transfer counts as already notified if and only if that very transfer was
/// delivered: no other transfer can stand in for it.
pub proof fn lemma_notified_iff_delivered(
    held: Set<Seq<char>>,
    delivered: Set<(Seq<u8>, Seq<u8>, Seq<u8>, Seq<u8>)>,
    t: (Seq<u8>, Seq<u8>, Seq<u8>, Seq<u8>),
)
    requires
        transfer_sized(t),
        forall|u| #[trigger] delivered.contains(u) ==> transfer_sized(u),
        forall|k: Seq<char>|
            #[trigger] held.contains(k) <==> exists|u| #[trigger]
                delivered.contains(u) && transfer_key(u) == k,
    ensures
        held.contains(transfer_key(t)) <==> delivered.contains(t),
{
    if held.contains(transfer_key(t)) {
        let u = choose|u| #[trigger] delivered.contains(u) && transfer_key(u) == transfer_key(t);
        lemma_distinct_transfers_have_distinct_keys(u.0, u.1, u.2, u.3, t.0, t.1, t.2, t.3);
        assert(u == t);
    }
    if delivered.contains(t) {
        assert(held.contains(transfer_key(t)));
    }
}

/// The transaction hash of a log, zero when the node gave none.
pub open spec fn log_tx_hash(log: EvmLog) -> Seq<u8> {
    match log.transaction_hash {
        Some(h) => h@,
        None => Seq::new(32, |i: int| 0u8),
    }
}

/// The outcome of decoding a log.
pub open spec fn decoded_log(log: EvmLog, r: Result<DecodedTransfer, LogError>) -> bool {
    if log.topics@.len() < 3 {
        r == Err::<DecodedTransfer, LogError>(LogError::NotEnoughTopics)
    } else if log.data@.len() < 32 {
        r == Err::<DecodedTransfer, LogError>(LogError::ValueNotDecodable)
    } else {
        r matches Ok(d) && {
            &&& d.from@ == topic_address(log.topics@[1]@)
            &&& d.to@ == topic_address(log.topics@[2]@)
            &&& d.value@ == log.data@.subrange(0, 32)
            &&& d.tx_hash@ == log_tx_hash(log)
            &&& d.notification_key@ == notification_key_text(
                d.from@,
                d.to@,
                d.value@,
                d.tx_hash@,
            )
        }
    }
}

/// ABI-decodes a `uint256` from the start of `data`
/// (`<U256 as AbiDecode>::decode`), as 32 big-endian bytes.
///
/// Claimed of ethers-core's decoder: it fails on fewer than 32 bytes
/// (including none) and otherwise reads the first 32 bytes as a big-endian
/// number, ignoring the rest.
#[verifier::external_body]
fn decode_uint256(data: &[u8]) -> (r: Option<[u8; 32]>)
    ensures
        r is Some <==> 32 <= data@.len(),
        r matches Some(w) ==> w@ == data@.subrange(0, 32),
{
    match <ethers_core::types::U256 as ethers_core::abi::AbiDecode>::decode(data) {
        Ok(v) => {
            let mut out = [0u8; 32];
            v.to_big_endian(&mut out);
            Some(out)
        },
        Err(_) => None,
    }
}

/// The decimal text of a 256-bit number given big-endian (`U256`'s `{}`).
///
/// Claimed of the `uint` crate's `Display`: it writes the number in decimal
/// without sign, padding or leading zeros, and `0` for zero.
#[verifier::external_body]
fn uint256_decimal(value: &[u8; 32]) -> (s: String)
    ensures
        s@ == decimal(big_endian(value@)),
{
    ethers_core::types::U256::from_big_endian(value).to_string()
}

/// The address held by a topic (`Address::from(H256)`): its last 20 bytes.
pub fn address_from_topic(topic: &[u8; 32]) -> (a: [u8; 20])
    ensures
        a@ == topic_address(topic@),
{
    let mut a = [0u8; 20];
    let mut i: usize = 0;
    while i < 20
        invariant
            i <= 20,
            forall|j: int| 0 <= j < i ==> a@[j] == topic@[j + 12],
        decreases 20 - i,
    {
        a[i] = topic[i + 12];
        i = i + 1;
    }
    proof {
        assert(a@ =~= topic_address(topic@));
    }
    a
}

/// The key that marks a transfer as notified.
pub fn notification_key(
    from: &[u8; 20],
    to: &[u8; 20],
    value: &[u8; 32],
    tx_hash: &[u8; 32],
) -> (s: String)
    ensures
        s@ == notification_key_text(from@, to@, value@, tx_hash@),
{
    let mut s = lower_hex(from.as_slice());
    s.append(":");
    s.append(lower_hex(to.as_slice()).as_str());
    s.append(":");
    s.append(uint256_decimal(value).as_str());
    s.append(":");
    s.append(lower_hex(tx_hash.as_slice()).as_str());
    s
}

/// Extracts sender, receiver, amount and transaction hash from a Transfer
/// log. Logs with fewer than three topics, or whose data does not decode as
/// an amount, are rejected; a missing transaction hash reads as zero.
pub fn decode_transfer_log(log: &EvmLog) -> (r: Result<DecodedTransfer, LogError>)
    ensures
        decoded_log(*log, r),
{
    if log.topics.len() < 3 {
        return Err(LogError::NotEnoughTopics);
    }
    let from = address_from_topic(&log.topics[1]);
    let to = address_from_topic(&log.topics[2]);
    let value = match decode_uint256(log.data.as_slice()) {
        Some(v) => v,
        None => {
            return Err(LogError::ValueNotDecodable);
        },
    };
    let tx_hash = match &log.transaction_hash {
        Some(h) => *h,
        None => [0u8; 32],
    };
    proof {
        if log.transaction_hash is None {
            assert(tx_hash@ =~= Seq::new(32, |i: int| 0u8));
        }
    }
    let notification_key = notification_key(&from, &to, &value, &tx_hash);
    Ok(DecodedTransfer { from, to, value, tx_hash, notification_key })
}

impl TransferEvent {
    /// The event for a decoded transfer.
    pub fn from_decoded(decoded: &DecodedTransfer, decimal: u8, explorer: Option<String>) -> (e:
        Self)
        ensures
            e.from == decoded.from,
            e.to == decoded.to,
            e.value == decoded.value,
            e.decimal == decimal,
            e.tx_hash == decoded.tx_hash,
            e.explorer == explorer,
    {
        TransferEvent {
            from: decoded.from,
            to: decoded.to,
            value: decoded.value,
            decimal,
            tx_hash: decoded.tx_hash,
            explorer,
        }
    }

    /// The key under which notification workers drop repeated transactions:
    /// the transaction hash as `{:#x}`.
    pub fn dedup_key(&self) -> (s: String)
        ensures
            s@ == lower_hex_text(self.tx_hash@),
    {
        lower_hex(self.tx_hash.as_slice())
    }
}

impl Default for TransferEvent {
    fn default() -> (e: Self)
        ensures
            e.from@ == Seq::new(20, |i: int| 0u8),
            e.to@ == Seq::new(20, |i: int| 0u8),
            e.value@ == Seq::new(32, |i: int| 0u8),
            e.decimal == 0,
            e.tx_hash@ == Seq::new(32, |i: int| 0u8),
            e.explorer is None,
    {
        let e = TransferEvent {
            from: [0u8; 20],
            to: [0u8; 20],
            value: [0u8; 32],
            decimal: 0,
            tx_hash: [0u8; 32],
            explorer: None,
        };
        proof {
            assert(e.from@ =~= Seq::new(20, |i: int| 0u8));
            assert(e.to@ =~= Seq::new(20, |i: int| 0u8));
            assert(e.value@ =~= Seq::new(32, |i: int| 0u8));
            assert(e.tx_hash@ =~= Seq::new(32, |i: int| 0u8));
        }
        e
    }
}

} // verus!
