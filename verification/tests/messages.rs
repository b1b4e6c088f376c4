use tracking_transfer_token_bot::send_message_to_telegram::{
    account_label, chat_id_from, evm_transfer_text, format_transfer, has_label_prefix, hex_link,
    html_link, lower_hex, message_text, solana_transfer_text, ChatIdError,
    MessageToSend, TransferType, DEFAULT_SOLANA_EXPLORER,
};

const SOURCE: &str = "GCdgrGgGcczEdfW2P6wLG8jjxzmhtdcPSJQhB2YmMZP9";
const DEST: &str = "SarosY6Vscao718M4A778z4CGtvcwcGef5M9MEH1LGL";

#[test]
fn html_link_builds_anchor() {
    assert_eq!(
        html_link("https://bscscan.com", "tx/0xab", "Detail"),
        "<a href=\"https://bscscan.com/tx/0xab\">Detail</a>"
    );
}

#[test]
fn format_transfer_layout() {
    assert_eq!(
        format_transfer("🟣", "Solana", "F", "T", "1.5", "X"),
        "🟣 <b>Solana Transfer</b>\n\nFrom: F\nTo: T\n💰 Amount: 1.5\n📝 Tx: X"
    );
}

#[test]
fn lower_hex_writes_every_byte() {
    assert_eq!(lower_hex(&[0x00, 0x0f, 0xab, 0xff]), "0x000fabff");
    let addr = [0x11u8; 20];
    assert_eq!(lower_hex(&addr), format!("0x{}", "11".repeat(20)));
}

#[test]
fn account_label_keeps_eight_bytes() {
    assert_eq!(account_label(SOURCE), "GCdgrGgG...");
    assert!(has_label_prefix(SOURCE));
    assert!(!has_label_prefix("short"));
    // the eighth byte falls inside a two-byte character
    assert!(!has_label_prefix("abcdefgé"));
    assert!(has_label_prefix("abcdefé"));
    assert_eq!(account_label("abcdefé rest"), "abcdefé...");
}

fn evm_expected(explorer: &str) -> String {
    let from = format!("0x{}", "11".repeat(20));
    let to = format!("0x{}", "22".repeat(20));
    let tx = format!("0x{}", "ab".repeat(32));
    format!(
        "Transfer Event:\nFrom: <a href=\"{e}/address/{from}\">{from}</a>\nTo: <a href=\"{e}/address/{to}\">{to}</a>\nValue: 123.45\nTransaction Hash: <a href=\"{e}/tx/{tx}\">{tx}</a>",
        e = explorer,
        from = from,
        to = to,
        tx = tx
    )
}

#[test]
fn evm_transfer_text_matches_layout() {
    let text = evm_transfer_text("https://etherscan.io", &[0x11; 20], &[0x22; 20], "123.45", &[0xab; 32]);
    assert_eq!(text, evm_expected("https://etherscan.io"));
}

fn solana_expected(explorer: &str) -> String {
    format!(
        "🟣 <b>Solana Transfer</b>\n\nFrom: <a href=\"{e}/account/{s}\">GCdgrGgG...</a>\nTo: <a href=\"{e}/account/{d}\">SarosY6V...</a>\n💰 Amount: 0.5\n📝 Tx: <a href=\"{e}/tx/SIG\">Detail</a>",
        e = explorer,
        s = SOURCE,
        d = DEST
    )
}

#[test]
fn solana_transfer_text_matches_layout() {
    let text = solana_transfer_text("https://solscan.io", SOURCE, DEST, "0.5", "SIG");
    assert_eq!(text, solana_expected("https://solscan.io"));
}

#[test]
fn message_text_evm_without_explorer_has_bare_paths() {
    let m = MessageToSend {
        transfer: TransferType::EVM {
            from: [0x11; 20],
            to: [0x22; 20],
            value: "123.45".to_string(),
            tx_hash: [0xab; 32],
        },
        explorer: None,
    };
    assert_eq!(message_text(&m), evm_expected(""));
}

#[test]
fn message_text_solana_defaults_to_solscan() {
    assert_eq!(DEFAULT_SOLANA_EXPLORER, "https://solscan.io");
    let m = MessageToSend {
        transfer: TransferType::Solana {
            from: SOURCE.to_string(),
            to: DEST.to_string(),
            amount: "0.5".to_string(),
            tx_signature: "SIG".to_string(),
        },
        explorer: None,
    };
    assert_eq!(message_text(&m), solana_expected("https://solscan.io"));
    let m2 = MessageToSend {
        transfer: TransferType::Solana {
            from: SOURCE.to_string(),
            to: DEST.to_string(),
            amount: "0.5".to_string(),
            tx_signature: "SIG".to_string(),
        },
        explorer: Some("https://explorer.solana.com".to_string()),
    };
    assert_eq!(message_text(&m2), solana_expected("https://explorer.solana.com"));
}

#[test]
fn chat_id_parsing() {
    assert_eq!(chat_id_from(Some("-1001234567890")), Ok(-1001234567890));
    assert_eq!(chat_id_from(Some("+42")), Ok(42));
    assert_eq!(chat_id_from(Some("-9223372036854775808")), Ok(i64::MIN));
    assert_eq!(chat_id_from(Some("9223372036854775808")), Err(ChatIdError::Invalid));
    assert_eq!(chat_id_from(Some("12a")), Err(ChatIdError::Invalid));
    assert_eq!(chat_id_from(Some("")), Err(ChatIdError::Invalid));
    assert_eq!(chat_id_from(None), Err(ChatIdError::NotSet));
    assert_eq!(ChatIdError::NotSet.message(), "TELEGRAM_CHAT_ID not set");
    assert_eq!(ChatIdError::Invalid.message(), "Invalid TELEGRAM_CHAT_ID");
}

#[test]
fn hex_link_shows_full_hex() {
    assert_eq!(
        hex_link("https://bscscan.com", "tx/", &[0x0a, 0xbc]),
        "<a href=\"https://bscscan.com/tx/0x0abc\">0x0abc</a>"
    );
}
