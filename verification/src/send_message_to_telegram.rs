use vstd::prelude::*;
use vstd::utf8::*;
use crate::text::{hex_bytes, hex_digit, lemma_hex_bytes_index, parsed_i64, push_hex};

verus! {

/// The transfer that a message reports.
#[allow(inconsistent_fields)]
pub enum TransferType {
    /// An ERC-20 transfer: the addresses and the transaction hash as raw
    /// bytes, the human-readable amount as the text to show.
    EVM { from: [u8; 20], to: [u8; 20], value: String, tx_hash: [u8; 32] },
    /// An SPL token transfer: the accounts and the signature as base58 text,
    /// the human-readable amount as the text to show.
    Solana { from: String, to: String, amount: String, tx_signature: String },
}

/// A notification ready to be formatted for the chat.
pub struct MessageToSend {
    pub transfer: TransferType,
    /// Block explorer base URL for the links, if the network has one.
    pub explorer: Option<String>,
}

/// Explorer used for Solana links when the configuration names none.
pub const DEFAULT_SOLANA_EXPLORER: &'static str = "https://solscan.io";

/// `<a href="{url}/{path}">{text}</a>`
pub open spec fn link_text(url: Seq<char>, path: Seq<char>, text: Seq<char>) -> Seq<char> {
    "<a href=\""@ + url + "/"@ + path + "\">"@ + text + "</a>"@
}

/// The body of a Solana transfer notification.
pub open spec fn transfer_text(
    emoji: Seq<char>,
    chain: Seq<char>,
    from_link: Seq<char>,
    to_link: Seq<char>,
    amount: Seq<char>,
    tx_link: Seq<char>,
) -> Seq<char> {
    emoji + " <b>"@ + chain + " Transfer</b>\n\nFrom: "@ + from_link + "\nTo: "@ + to_link
        + "\n💰 Amount: "@ + amount + "\n📝 Tx: "@ + tx_link
}

/// A fixed-size hash or address as `{:#x}` writes it: `0x` and every byte in
/// lower-case hexadecimal.
pub open spec fn lower_hex_text(bytes: Seq<u8>) -> Seq<char> {
    "0x"@ + hex_bytes(bytes)
}

/// A lower-case hexadecimal digit: `0`-`9` or `a`-`f`.
pub open spec fn is_lower_hex_digit(c: char) -> bool {
    ('0' <= c && c <= '9') || ('a' <= c && c <= 'f')
}

/// The value of a lower-case hexadecimal digit.
pub open spec fn lower_hex_digit_value(c: char) -> int {
    if c <= '9' {
        c as int - 48
    } else {
        c as int - 87
    }
}

/// A nibble is written as the lower-case hexadecimal digit of its value.
proof fn lemma_hex_digit_reads_back(n: int)
    requires
        0 <= n < 16,
    ensures
        is_lower_hex_digit(hex_digit(n)),
        lower_hex_digit_value(hex_digit(n)) == n,
{
    if n < 10 {
        assert(hex_digit(n) as int == n + 48);
    } else {
        assert(hex_digit(n) as int == n + 87);
    }
}

/// The `{:#x}` form of bytes is `0x` followed by two lower-case hexadecimal
/// digits per byte, high nibble first, which read back as that byte.
pub proof fn lemma_lower_hex_text_reads_back(bytes: Seq<u8>)
    ensures
        lower_hex_text(bytes).len() == 2 + 2 * bytes.len(),
        lower_hex_text(bytes)[0] == '0',
        lower_hex_text(bytes)[1] == 'x',
        forall|j: int|
            2 <= j < lower_hex_text(bytes).len() ==> is_lower_hex_digit(
                #[trigger] lower_hex_text(bytes)[j],
            ),
        forall|i: int|
            0 <= i < bytes.len() ==> lower_hex_digit_value(lower_hex_text(bytes)[2 + 2 * i]) * 16
                + lower_hex_digit_value(lower_hex_text(bytes)[3 + 2 * i]) == #[trigger] bytes[i],
{
    reveal_strlit("0x");
    lemma_hex_bytes_index(bytes);
    let t = lower_hex_text(bytes);
    let h = hex_bytes(bytes);
    assert forall|i: int| 0 <= i < bytes.len() implies lower_hex_digit_value(t[2 + 2 * i]) * 16
        + lower_hex_digit_value(t[3 + 2 * i]) == #[trigger] bytes[i] by {
        assert(t[2 + 2 * i] == h[2 * i]);
        assert(t[3 + 2 * i] == h[2 * i + 1]);
        lemma_hex_digit_reads_back(bytes[i] as int / 16);
        lemma_hex_digit_reads_back(bytes[i] as int % 16);
    }
    assert forall|j: int| 2 <= j < t.len() implies is_lower_hex_digit(#[trigger] t[j]) by {
        let i = (j - 2) / 2;
        assert(t[j] == h[j - 2]);
        assert(bytes[i] == bytes[i]);
        if (j - 2) % 2 == 0 {
            assert(j - 2 == 2 * i);
            lemma_hex_digit_reads_back(bytes[i] as int / 16);
        } else {
            assert(j - 2 == 2 * i + 1);
            lemma_hex_digit_reads_back(bytes[i] as int % 16);
        }
    }
}

/// Whether the first eight bytes of the UTF-8 form of `s` end on a character
/// boundary (so that `&s[..8]` does not panic).
pub open spec fn has_eight_byte_prefix(s: Seq<char>) -> bool {
    is_char_boundary(encode_utf8(s), 8)
}

/// The characters of the first eight bytes of `s`.
pub open spec fn eight_byte_prefix(s: Seq<char>) -> Seq<char> {
    decode_utf8(encode_utf8(s).subrange(0, 8))
}

/// A shortened account label: its first eight bytes and `...`.
pub open spec fn account_label_text(s: Seq<char>) -> Seq<char> {
    eight_byte_prefix(s) + "..."@
}

/// A link to an explorer page of an address or transaction, showing its
/// full hexadecimal form.
pub open spec fn hex_link_text(explorer: Seq<char>, kind: Seq<char>, bytes: Seq<u8>) -> Seq<char> {
    link_text(explorer, kind + lower_hex_text(bytes), lower_hex_text(bytes))
}

/// The notification text for an ERC-20 transfer.
pub open spec fn evm_text(
    explorer: Seq<char>,
    from: Seq<u8>,
    to: Seq<u8>,
    value: Seq<char>,
    tx_hash: Seq<u8>,
) -> Seq<char> {
    "Transfer Event:\nFrom: "@ + hex_link_text(explorer, "address/"@, from) + "\nTo: "@
        + hex_link_text(explorer, "address/"@, to) + "\nValue: "@ + value
        + "\nTransaction Hash: "@ + hex_link_text(explorer, "tx/"@, tx_hash)
}

/// The notification text for an SPL token transfer.
pub open spec fn solana_text(
    explorer: Seq<char>,
    from: Seq<char>,
    to: Seq<char>,
    amount: Seq<char>,
    tx_signature: Seq<char>,
) -> Seq<char> {
    transfer_text(
        "🟣"@,
        "Solana"@,
        link_text(explorer, "account/"@ + from, account_label_text(from)),
        link_text(explorer, "account/"@ + to, account_label_text(to)),
        amount,
        link_text(explorer, "tx/"@ + tx_signature, "Detail"@),
    )
}

/// The explorer of an EVM message: the configured one, else the empty string.
pub open spec fn evm_explorer(explorer: Option<String>) -> Seq<char> {
    match explorer {
        Some(e) => e@,
        None => Seq::empty(),
    }
}

/// The explorer of a Solana message: the configured one, else solscan.
pub open spec fn solana_explorer(explorer: Option<String>) -> Seq<char> {
    match explorer {
        Some(e) => e@,
        None => DEFAULT_SOLANA_EXPLORER@,
    }
}

/// Whether a message can be formatted: Solana account labels cut the
/// accounts after eight bytes.
pub open spec fn message_is_formattable(message: MessageToSend) -> bool {
    match message.transfer {
        TransferType::EVM { .. } => true,
        TransferType::Solana { from, to, .. } => has_eight_byte_prefix(from@)
            && has_eight_byte_prefix(to@),
    }
}

/// Whether `p` occurs in `s`.
pub open spec fn has_infix(s: Seq<char>, p: Seq<char>) -> bool {
    exists|i: int| 0 <= i && i + p.len() <= s.len() && #[trigger] s.subrange(i, i + p.len()) == p
}

/// `p` occurs in any text that has it between a prefix and a suffix.
proof fn lemma_has_infix(pre: Seq<char>, p: Seq<char>, post: Seq<char>)
    ensures
        has_infix(pre + p + post, p),
{
    let s = pre + p + post;
    assert(s.subrange(pre.len() as int, pre.len() + p.len() as int) =~= p);
}

/// The opening tag of a link to `{explorer}/{kind}{0x…}`.
pub open spec fn anchor_open(explorer: Seq<char>, kind: Seq<char>, bytes: Seq<u8>) -> Seq<char> {
    "<a href=\""@ + explorer + "/"@ + kind + lower_hex_text(bytes) + "\">"@
}

/// A link of an EVM message starts with its opening tag.
proof fn lemma_hex_link_opens_with(explorer: Seq<char>, kind: Seq<char>, bytes: Seq<u8>)
    ensures
        hex_link_text(explorer, kind, bytes) == anchor_open(explorer, kind, bytes) + (
        lower_hex_text(bytes) + "</a>"@),
{
    assert(hex_link_text(explorer, kind, bytes) =~= anchor_open(explorer, kind, bytes) + (
    lower_hex_text(bytes) + "</a>"@));
}

/// With a configured explorer `e`, the links of an EVM notification point
/// into it: the sender and receiver to `{e}/address/0x…` and the
/// transaction to `{e}/tx/0x…`, each with the full hexadecimal form.
#[verifier::spinoff_prover]
#[verifier::rlimit(40)]
pub proof fn lemma_evm_links_point_at_explorer(
    from: [u8; 20],
    to: [u8; 20],
    value: String,
    tx_hash: [u8; 32],
    e: String,
)
    ensures
        ({
            let t = message_text_of(
                MessageToSend {
                    transfer: TransferType::EVM { from, to, value, tx_hash },
                    explorer: Some(e),
                },
            );
            &&& has_infix(
                t,
                "<a href=\""@ + e@ + "/"@ + "address/"@ + lower_hex_text(from@) + "\">"@,
            )
            &&& has_infix(
                t,
                "<a href=\""@ + e@ + "/"@ + "address/"@ + lower_hex_text(to@) + "\">"@,
            )
            &&& has_infix(t, "<a href=\""@ + e@ + "/"@ + "tx/"@ + lower_hex_text(tx_hash@) + "\">"@)
        }),
{
    let m = MessageToSend {
        transfer: TransferType::EVM { from, to, value, tx_hash },
        explorer: Some(e),
    };
    let t = message_text_of(m);
    let ex = e@;
    let lf = hex_link_text(ex, "address/"@, from@);
    let lt = hex_link_text(ex, "address/"@, to@);
    let lx = hex_link_text(ex, "tx/"@, tx_hash@);
    lemma_hex_link_opens_with(ex, "address/"@, from@);
    lemma_hex_link_opens_with(ex, "address/"@, to@);
    lemma_hex_link_opens_with(ex, "tx/"@, tx_hash@);
    let a = "Transfer Event:\nFrom: "@;
    let b = "\nTo: "@;
    let c = "\nValue: "@ + value@ + "\nTransaction Hash: "@;
    assert(t == a + lf + b + lt + c + lx);
    let pf = anchor_open(ex, "address/"@, from@);
    let pt = anchor_open(ex, "address/"@, to@);
    let px = anchor_open(ex, "tx/"@, tx_hash@);
    assert(t =~= a + pf + ((lower_hex_text(from@) + "</a>"@) + b + lt + c + lx));
    lemma_has_infix(a, pf, (lower_hex_text(from@) + "</a>"@) + b + lt + c + lx);
    assert(t =~= (a + lf + b) + pt + ((lower_hex_text(to@) + "</a>"@) + c + lx));
    lemma_has_infix(a + lf + b, pt, (lower_hex_text(to@) + "</a>"@) + c + lx);
    assert(t =~= (a + lf + b + lt + c) + px + (lower_hex_text(tx_hash@) + "</a>"@));
    lemma_has_infix(a + lf + b + lt + c, px, lower_hex_text(tx_hash@) + "</a>"@);
    assert(pf =~= "<a href=\""@ + e@ + "/"@ + "address/"@ + lower_hex_text(from@) + "\">"@);
    assert(pt =~= "<a href=\""@ + e@ + "/"@ + "address/"@ + lower_hex_text(to@) + "\">"@);
    assert(px =~= "<a href=\""@ + e@ + "/"@ + "tx/"@ + lower_hex_text(tx_hash@) + "\">"@);
}

/// The links of a Solana notification point into the configured explorer,
/// or into solscan when none is configured: the accounts to
/// `{explorer}/account/{account}` and the transaction to
/// `{explorer}/tx/{signature}`, shown as `Detail`.
#[verifier::spinoff_prover]
#[verifier::rlimit(40)]
pub proof fn lemma_solana_links_point_at_explorer(
    from: String,
    to: String,
    amount: String,
    tx_signature: String,
    explorer: Option<String>,
)
    ensures
        ({
            let t = message_text_of(
                MessageToSend {
                    transfer: TransferType::Solana { from, to, amount, tx_signature },
                    explorer,
                },
            );
            let ex = match explorer {
                Some(e) => e@,
                None => "https://solscan.io"@,
            };
            &&& has_infix(t, "<a href=\""@ + ex + "/"@ + "account/"@ + from@ + "\">"@)
            &&& has_infix(t, "<a href=\""@ + ex + "/"@ + "account/"@ + to@ + "\">"@)
            &&& has_infix(
                t,
                "<a href=\""@ + ex + "/"@ + "tx/"@ + tx_signature@ + "\">"@ + "Detail"@ + "</a>"@,
            )
        }),
{
    let m = MessageToSend {
        transfer: TransferType::Solana { from, to, amount, tx_signature },
        explorer,
    };
    let t = message_text_of(m);
    let ex = solana_explorer(explorer);
    let lf = link_text(ex, "account/"@ + from@, account_label_text(from@));
    let lt = link_text(ex, "account/"@ + to@, account_label_text(to@));
    let lx = link_text(ex, "tx/"@ + tx_signature@, "Detail"@);
    let a = "🟣"@ + " <b>"@ + "Solana"@ + " Transfer</b>\n\nFrom: "@;
    let b = "\nTo: "@;
    let c = "\n💰 Amount: "@ + amount@ + "\n📝 Tx: "@;
    assert(t =~= a + lf + b + lt + c + lx);
    let pf = "<a href=\""@ + ex + "/"@ + "account/"@ + from@ + "\">"@;
    let pt = "<a href=\""@ + ex + "/"@ + "account/"@ + to@ + "\">"@;
    assert(lf =~= pf + (account_label_text(from@) + "</a>"@));
    assert(lt =~= pt + (account_label_text(to@) + "</a>"@));
    assert(t =~= a + pf + ((account_label_text(from@) + "</a>"@) + b + lt + c + lx));
    lemma_has_infix(a, pf, (account_label_text(from@) + "</a>"@) + b + lt + c + lx);
    assert(t =~= (a + lf + b) + pt + ((account_label_text(to@) + "</a>"@) + c + lx));
    lemma_has_infix(a + lf + b, pt, (account_label_text(to@) + "</a>"@) + c + lx);
    let px = "<a href=\""@ + ex + "/"@ + "tx/"@ + tx_signature@ + "\">"@ + "Detail"@ + "</a>"@;
    assert(lx =~= px);
    assert(t =~= (a + lf + b + lt + c) + px + Seq::<char>::empty());
    lemma_has_infix(a + lf + b + lt + c, px, Seq::<char>::empty());
    if explorer is None {
        assert(ex == DEFAULT_SOLANA_EXPLORER@);
        reveal_strlit("https://solscan.io");
        assert(DEFAULT_SOLANA_EXPLORER@ =~= "https://solscan.io"@);
    }
}

/// The chat text of a message.
pub open spec fn message_text_of(message: MessageToSend) -> Seq<char> {
    match message.transfer {
        TransferType::EVM { from, to, value, tx_hash } => evm_text(
            evm_explorer(message.explorer),
            from@,
            to@,
            value@,
            tx_hash@,
        ),
        TransferType::Solana { from, to, amount, tx_signature } => solana_text(
            solana_explorer(message.explorer),
            from@,
            to@,
            amount@,
            tx_signature@,
        ),
    }
}

/// Why the chat to notify is not known.
#[derive(PartialEq, Eq, Structural, Debug, Clone, Copy)]
pub enum ChatIdError {
    /// `TELEGRAM_CHAT_ID` is not set.
    NotSet,
    /// `TELEGRAM_CHAT_ID` is not an integer.
    Invalid,
}

impl ChatIdError {
    /// The description of the error.
    pub fn message(&self) -> (s: String)
        ensures
            *self == ChatIdError::NotSet ==> s@ == "TELEGRAM_CHAT_ID not set"@,
            *self == ChatIdError::Invalid ==> s@ == "Invalid TELEGRAM_CHAT_ID"@,
    {
        match self {
            ChatIdError::NotSet => string_of("TELEGRAM_CHAT_ID not set"),
            ChatIdError::Invalid => string_of("Invalid TELEGRAM_CHAT_ID"),
        }
    }
}

/// Parses a chat id (`str::parse::<i64>`).
///
/// Claimed of std, as its documentation states it: an optional `+` or `-`
/// followed by decimal digits only, with a value that fits, parses to that
/// value; anything else is an error.
#[verifier::external_body]
fn parse_i64(text: &str) -> (r: Option<i64>)
    ensures
        r == parsed_i64(text@),
{
    text.parse::<i64>().ok()
}

/// The chat to notify, from the value of `TELEGRAM_CHAT_ID` if it is set.
pub fn chat_id_from(value: Option<&str>) -> (r: Result<i64, ChatIdError>)
    ensures
        value is None ==> r == Err::<i64, ChatIdError>(ChatIdError::NotSet),
        value matches Some(v) ==> (match parsed_i64(v@) {
            Some(id) => r == Ok::<i64, ChatIdError>(id),
            None => r == Err::<i64, ChatIdError>(ChatIdError::Invalid),
        }),
{
    match value {
        None => Err(ChatIdError::NotSet),
        Some(v) => match parse_i64(v) {
            Some(id) => Ok(id),
            None => Err(ChatIdError::Invalid),
        },
    }
}

fn string_of(s: &str) -> (r: String)
    ensures
        r@ == s@,
{
    String::from_str(s)
}

/// Builds an HTML link `<a href="{url}/{path}">{text}</a>`.
pub fn html_link(url: &str, path: &str, text: &str) -> (s: String)
    ensures
        s@ == link_text(url@, path@, text@),
{
    let mut s = string_of("<a href=\"");
    s.append(url);
    s.append("/");
    s.append(path);
    s.append("\">");
    s.append(text);
    s.append("</a>");
    s
}

/// Formats the body of a Solana transfer notification.
pub fn format_transfer(
    emoji: &str,
    chain: &str,
    from_link: &str,
    to_link: &str,
    amount: &str,
    tx_link: &str,
) -> (s: String)
    ensures
        s@ == transfer_text(emoji@, chain@, from_link@, to_link@, amount@, tx_link@),
{
    let mut s = string_of(emoji);
    s.append(" <b>");
    s.append(chain);
    s.append(" Transfer</b>\n\nFrom: ");
    s.append(from_link);
    s.append("\nTo: ");
    s.append(to_link);
    s.append("\n💰 Amount: ");
    s.append(amount);
    s.append("\n📝 Tx: ");
    s.append(tx_link);
    s
}

/// `{:#x}` of a hash or address given by its bytes.
pub fn lower_hex(bytes: &[u8]) -> (s: String)
    ensures
        s@ == lower_hex_text(bytes@),
{
    let mut s = string_of("0x");
    push_hex(&mut s, bytes);
    s
}

/// Whether `&s[..8]` can be taken: the text has at least eight bytes and the
/// eighth ends a character.
pub fn has_label_prefix(s: &str) -> (b: bool)
    ensures
        b == has_eight_byte_prefix(s@),
{
    s.is_char_boundary(8)
}

/// The first eight bytes of an account, then `...` (`&s[..8]` in a label).
pub fn account_label(s: &str) -> (r: String)
    requires
        has_eight_byte_prefix(s@),
    ensures
        r@ == account_label_text(s@),
{
    let (head, _rest) = s.split_at(8);
    proof {
        encode_utf8_decode_utf8(head@);
    }
    let mut r = string_of(head);
    r.append("...");
    r
}

/// A link to the explorer page `{kind}{hex}` showing the full hexadecimal
/// form of `bytes`.
pub fn hex_link(explorer: &str, kind: &str, bytes: &[u8]) -> (s: String)
    ensures
        s@ == hex_link_text(explorer@, kind@, bytes@),
{
    let hex = lower_hex(bytes);
    let mut path = string_of(kind);
    path.append(hex.as_str());
    html_link(explorer, path.as_str(), hex.as_str())
}

/// The notification text for an ERC-20 transfer.
pub fn evm_transfer_text(
    explorer: &str,
    from: &[u8; 20],
    to: &[u8; 20],
    value: &str,
    tx_hash: &[u8; 32],
) -> (s: String)
    ensures
        s@ == evm_text(explorer@, from@, to@, value@, tx_hash@),
{
    let mut s = string_of("Transfer Event:\nFrom: ");
    s.append(hex_link(explorer, "address/", from.as_slice()).as_str());
    s.append("\nTo: ");
    s.append(hex_link(explorer, "address/", to.as_slice()).as_str());
    s.append("\nValue: ");
    s.append(value);
    s.append("\nTransaction Hash: ");
    s.append(hex_link(explorer, "tx/", tx_hash.as_slice()).as_str());
    s
}

/// The notification text for an SPL token transfer.
pub fn solana_transfer_text(
    explorer: &str,
    from: &str,
    to: &str,
    amount: &str,
    tx_signature: &str,
) -> (s: String)
    requires
        has_eight_byte_prefix(from@),
        has_eight_byte_prefix(to@),
    ensures
        s@ == solana_text(explorer@, from@, to@, amount@, tx_signature@),
{
    let mut from_path = string_of("account/");
    from_path.append(from);
    let from_link = html_link(explorer, from_path.as_str(), account_label(from).as_str());
    let mut to_path = string_of("account/");
    to_path.append(to);
    let to_link = html_link(explorer, to_path.as_str(), account_label(to).as_str());
    let mut tx_path = string_of("tx/");
    tx_path.append(tx_signature);
    let tx_link = html_link(explorer, tx_path.as_str(), "Detail");
    format_transfer(
        "🟣",
        "Solana",
        from_link.as_str(),
        to_link.as_str(),
        amount,
        tx_link.as_str(),
    )
}

/// The chat text of a message, with clickable links for the addresses and
/// the transaction. EVM links use the configured explorer or none; Solana
/// links fall back to solscan.
pub fn message_text(message: &MessageToSend) -> (s: String)
    requires
        message_is_formattable(*message),
    ensures
        s@ == message_text_of(*message),
{
    match &message.transfer {
        TransferType::EVM { from, to, value, tx_hash } => {
            let explorer = match &message.explorer {
                Some(e) => e.as_str(),
                None => "",
            };
            proof {
                reveal_strlit("");
            }
            evm_transfer_text(explorer, from, to, value.as_str(), tx_hash)
        },
        TransferType::Solana { from, to, amount, tx_signature } => {
            let explorer = match &message.explorer {
                Some(e) => e.as_str(),
                None => DEFAULT_SOLANA_EXPLORER,
            };
            solana_transfer_text(
                explorer,
                from.as_str(),
                to.as_str(),
                amount.as_str(),
                tx_signature.as_str(),
            )
        },
    }
}

} // verus!
