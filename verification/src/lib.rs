//! Verified core of a service that watches token `Transfer` events on
//! EVM chains and on Solana and reports them to a Telegram chat.

pub mod dedup;
pub mod get_config;
pub mod get_event;
pub mod round_robin;
pub mod send_message_to_telegram;
pub mod solana_adapter;
pub mod text;
pub mod types;
pub mod worker;

pub use round_robin::RoundRobin;
pub use types::VerificationError;
pub use get_config::Config;
pub use get_event::TransferEvent;
