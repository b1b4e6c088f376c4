# tracking_transfer_token_bot

A service that watches ERC-20 `Transfer` events on EVM chains and SPL token
transfers on Solana, and reports them to a Telegram chat.

The decisions and data handling of the service are a Verus-verified library
under `src/`; `app/` holds the program around it: reading the configuration
and the `.env` secrets, the WebSocket and RPC clients, the Telegram bot, and
the async tasks that tie them together.

## Library modules

- `round_robin`: `RoundRobin`, the load-balancing selector over endpoints or
  clients, with its rotation and fairness laws.
- `dedup`: `DedupCache`, the bounded sets of keys that drop repeated
  transactions and notifications.
- `get_config`: configuration entries, the chain kind of an entry, and the
  WebSocket URL a Solana listener subscribes to.
- `get_event`: decoding `Transfer` logs, notification keys, the endpoint
  rotation of an EVM listener. A notification key holds the full hexadecimal
  sender, receiver and transaction hash, not their abbreviated `{}` display
  (`0x1234…abcd`), so that distinct transfers never share a key and none is
  dropped as already notified.
- `solana_adapter`: scanning a Solana transaction for transfers of a mint,
  token-account checks, the retry policy of transaction fetches.
- `send_message_to_telegram`: the HTML text of the notifications, chat id
  parsing.
- `worker`: batching and de-duplication in the notification workers, the
  retry policy of sends.
- `text`, `types`: text helpers and shared types.

## Layout

- `src/`: the verified library.
- `tests/`: tests of the library on concrete values.
- `app/`: the service's `main`.
