use vstd::prelude::*;
use vstd::arithmetic::div_mod::*;

verus! {

/// Generic round-robin selector for load balancing across multiple items.
///
/// Every call of `next` draws a ticket from a shared counter and hands out
/// the item at position `ticket % len`, so consecutive tickets walk the items
/// in order and wrap around at the end.
pub struct RoundRobin<T> {
    items: Vec<T>,
    counter: std::sync::atomic::AtomicUsize,
}

/// The position that ticket `ticket` selects among `len` items.
pub open spec fn ticket_slot(ticket: int, len: nat) -> int {
    ticket % (len as int)
}

/// The position selected by ticket `start + k`, for an offset `k` below the
/// number of items, expressed through the position of `start`.
proof fn lemma_slot_of_offset(start: int, len: nat, k: int)
    requires
        len > 0,
        start >= 0,
        0 <= k < len,
    ensures
        ticket_slot(start + k, len) == if ticket_slot(start, len) + k < len {
            ticket_slot(start, len) + k
        } else {
            ticket_slot(start, len) + k - len
        },
{
    let d = len as int;
    let q = start / d;
    let r = start % d;
    lemma_fundamental_div_mod(start, d);
    lemma_mod_bound(start, d);
    if r + k < d {
        assert(start + k == q * d + (r + k));
        lemma_fundamental_div_mod_converse(start + k, d, q, r + k);
    } else {
        assert(start + k == (q + 1) * d + (r + k - d)) by (nonlinear_arith)
            requires
                start == d * q + r,
        ;
        lemma_fundamental_div_mod_converse(start + k, d, q + 1, r + k - d);
    }
}

/// Rotation: the ticket after `ticket` selects the item after the one that
/// `ticket` selects, wrapping from the last item back to the first.
pub proof fn lemma_next_ticket_selects_next_item(ticket: int, len: nat)
    requires
        len > 0,
        ticket >= 0,
    ensures
        ticket_slot(ticket + 1, len) == (ticket_slot(ticket, len) + 1) % (len as int),
{
    let d = len as int;
    lemma_mod_bound(ticket, d);
    if len == 1 {
        lemma_mod_bound(ticket + 1, d);
        lemma_mod_bound(ticket_slot(ticket, len) + 1, d);
    } else {
        lemma_slot_of_offset(ticket, len, 1);
        let r = ticket_slot(ticket, len);
        if r + 1 < d {
            lemma_small_mod((r + 1) as nat, len);
        } else {
            lemma_mod_self_0(d);
        }
    }
}

/// Some ticket among `start .. start + len` selects position `j`.
pub open spec fn window_selects(start: int, len: nat, j: int) -> bool {
    exists|k: int| 0 <= k < len && #[trigger] ticket_slot(start + k, len) == j
}

/// Fairness: any `len` consecutive tickets select every one of the `len`
/// items, and no item twice.
pub proof fn lemma_window_selects_every_item_once(start: int, len: nat)
    requires
        len > 0,
        start >= 0,
    ensures
        forall|j: int| 0 <= j < len ==> #[trigger] window_selects(start, len, j),
        forall|k1: int, k2: int|
            0 <= k1 < k2 < len ==> #[trigger] ticket_slot(start + k1, len) != #[trigger] ticket_slot(
                start + k2,
                len,
            ),
{
    let d = len as int;
    let r = ticket_slot(start, len);
    lemma_mod_bound(start, d);
    assert forall|j: int| 0 <= j < len implies #[trigger] window_selects(start, len, j) by {
        let k = if j >= r {
            j - r
        } else {
            j - r + d
        };
        lemma_slot_of_offset(start, len, k);
        assert(ticket_slot(start + k, len) == j);
    }
    assert forall|k1: int, k2: int| 0 <= k1 < k2 < len implies #[trigger] ticket_slot(
        start + k1,
        len,
    ) != #[trigger] ticket_slot(start + k2, len) by {
        lemma_slot_of_offset(start, len, k1);
        lemma_slot_of_offset(start, len, k2);
    }
}

impl<T> View for RoundRobin<T> {
    type V = Seq<T>;

    closed spec fn view(&self) -> Seq<T> {
        self.items@
    }
}

impl<T: Clone> RoundRobin<T> {
    /// Create a new round-robin selector with the given items.
    pub fn new(items: Vec<T>) -> (rr: Self)
        ensures
            rr@ == items@,
    {
        RoundRobin { items, counter: std::sync::atomic::AtomicUsize::new(0) }
    }

    /// The item that ticket `ticket` selects: `None` when there are no items.
    pub fn item_at(&self, ticket: usize) -> (r: Option<T>)
        ensures
            self@.len() == 0 ==> r is None,
            self@.len() > 0 ==> (r matches Some(v) && cloned(
                self@[ticket_slot(ticket as int, self@.len())],
                v,
            )),
    {
        if self.items.len() == 0 {
            return None;
        }
        let index = ticket % self.items.len();
        Some(self.items[index].clone())
    }

    /// Get the next item using round-robin selection.
    ///
    /// The ticket comes from a counter shared by all callers, so which item a
    /// single call receives depends on the calls made before it; what holds
    /// for every call is that it returns one of the items, or `None` exactly
    /// when there are none.
    pub fn next(&self) -> (r: Option<T>)
        ensures
            self@.len() == 0 <==> r is None,
            r matches Some(v) ==> exists|j: int| 0 <= j < self@.len() && cloned(self@[j], v),
    {
        if self.items.len() == 0 {
            return None;
        }
        let ticket = self.counter.fetch_add(1, std::sync::atomic::Ordering::Relaxed);
        self.item_at(ticket)
    }

    /// Get the number of items.
    pub fn len(&self) -> (n: usize)
        ensures
            n == self@.len(),
    {
        self.items.len()
    }

    /// Check if empty.
    pub fn is_empty(&self) -> (b: bool)
        ensures
            b == (self@.len() == 0),
    {
        self.items.len() == 0
    }
}

} // verus!
