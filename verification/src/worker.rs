use vstd::prelude::*;
use crate::dedup::DedupCache;
use crate::get_event::TransferEvent;
use crate::send_message_to_telegram::{MessageToSend, TransferType, lower_hex_text};

verus! {

/// Notification workers that drain the event channel in parallel.
pub const WORKER_COUNT: usize = 8;

/// Capacity of the channel from the listeners to the workers.
pub const CHANNEL_CAPACITY: usize = 200;

/// A worker sends its batch as soon as it holds this many events.
pub const BATCH_SIZE: usize = 5;

/// A worker sends a non-empty batch at least this often, in seconds.
pub const BATCH_INTERVAL_SECS: u64 = 2;

/// Attempts to send one message before giving up on it.
pub const SEND_MAX_ATTEMPTS: u32 = 3;

/// Pause between two messages of a batch, in milliseconds.
pub const PAUSE_BETWEEN_MESSAGES_MILLIS: u64 = 100;

/// The events a worker has accepted and not sent yet.
pub struct EventBatch {
    events: Vec<TransferEvent>,
}

impl View for EventBatch {
    type V = Seq<TransferEvent>;

    closed spec fn view(&self) -> Seq<TransferEvent> {
        self.events@
    }
}

impl EventBatch {
    /// An empty batch.
    pub fn new() -> (b: Self)
        ensures
            b@ == Seq::<TransferEvent>::empty(),
    {
        EventBatch { events: Vec::new() }
    }

    /// The number of waiting events.
    pub fn len(&self) -> (n: usize)
        ensures
            n == self@.len(),
    {
        self.events.len()
    }

    /// Whether no event waits.
    pub fn is_empty(&self) -> (b: bool)
        ensures
            b == (self@.len() == 0),
    {
        self.events.len() == 0
    }

    /// Adds an event; returns whether the batch is now full and must be sent.
    pub fn push(&mut self, event: TransferEvent) -> (full: bool)
        ensures
            final(self)@ == old(self)@.push(event),
            full == (final(self)@.len() >= BATCH_SIZE),
    {
        self.events.push(event);
        self.events.len() >= BATCH_SIZE
    }

    /// Takes every waiting event, in arrival order, leaving the batch empty.
    pub fn take(&mut self) -> (events: Vec<TransferEvent>)
        ensures
            events@ == old(self)@,
            final(self)@ == Seq::<TransferEvent>::empty(),
    {
        let mut events = Vec::new();
        std::mem::swap(&mut events, &mut self.events);
        events
    }
}

/// Admits an event unless its transaction was already seen by any worker;
/// the transaction hash is remembered in the shared cache.
pub fn accept_new_transaction(seen: &mut DedupCache, event: &TransferEvent) -> (fresh: bool)
    ensures
        fresh == !old(seen)@.contains(lower_hex_text(event.tx_hash@)),
        final(seen)@ == crate::dedup::bounded(
            old(seen)@.insert(lower_hex_text(event.tx_hash@)),
            old(seen).limit(),
        ),
        final(seen).limit() == old(seen).limit(),
{
    seen.record(event.dedup_key())
}

/// The message for an event, given the text of its human-readable amount.
pub fn event_message(event: &TransferEvent, value: String) -> (m: MessageToSend)
    ensures
        m.explorer == event.explorer,
        m.transfer matches TransferType::EVM { from, to, value: v, tx_hash } && from == event.from
            && to == event.to && v == value && tx_hash == event.tx_hash,
{
    MessageToSend {
        transfer: TransferType::EVM {
            from: event.from,
            to: event.to,
            value,
            tx_hash: event.tx_hash,
        },
        explorer: event.explorer.clone(),
    }
}

/// What follows an attempt to send a message.
#[derive(PartialEq, Eq, Structural, Debug, Clone, Copy)]
pub enum SendDecision {
    /// The message was sent.
    Delivered,
    /// Send again after this many milliseconds.
    RetryAfterMillis(u64),
    /// Give the message up.
    GiveUp,
}

/// What follows a send attempt made after `failures` failed ones: after the
/// `n`-th failure the worker waits `500 * n` ms, up to three attempts.
pub fn after_send(failures: u32, sent: bool) -> (d: SendDecision)
    requires
        failures < SEND_MAX_ATTEMPTS,
    ensures
        sent ==> d == SendDecision::Delivered,
        !sent && failures + 1 < SEND_MAX_ATTEMPTS ==> (d matches SendDecision::RetryAfterMillis(ms)
            && ms == 500 * (failures + 1)),
        !sent && failures + 1 == SEND_MAX_ATTEMPTS ==> d == SendDecision::GiveUp,
{
    if sent {
        return SendDecision::Delivered;
    }
    let failed = failures + 1;
    if failed < SEND_MAX_ATTEMPTS {
        SendDecision::RetryAfterMillis(500 * failed as u64)
    } else {
        SendDecision::GiveUp
    }
}

} // verus!
