//! A fixed-size ring of kernel trace events.
use vstd::prelude::*;

verus! {

/// What a trace event is about.
#[derive(Clone, Copy, Debug, PartialEq, Eq, Structural)]
pub enum TraceKind {
    Boot,
    Memory,
    Scheduler,
    Driver,
    Panic,
}

/// One trace event.
#[derive(Clone, Copy, Debug, PartialEq, Eq, Structural)]
pub struct TraceEvent {
    pub kind: TraceKind,
    pub code: u32,
    pub value: u64,
}

impl TraceEvent {
    pub fn new(kind: TraceKind, code: u32, value: u64) -> (r: Self)
        ensures
            r == (TraceEvent { kind, code, value }),
    {
        TraceEvent { kind, code, value }
    }
}

/// One record on a ring of `slots` at `cursor`: the event overwrites the slot
/// the cursor names, modulo the ring's length, and the cursor moves on; a ring
/// without slots drops the event.
pub open spec fn record_step(slots: Seq<TraceEvent>, cursor: usize, event: TraceEvent) -> (Seq<TraceEvent>, usize) {
    if slots.len() == 0 {
        (slots, cursor)
    } else {
        (slots.update((cursor as int) % (slots.len() as int), event), cursor.wrapping_add(1))
    }
}

/// `events` recorded one after another on a ring of `slots` at `cursor`.
pub open spec fn record_steps(slots: Seq<TraceEvent>, cursor: usize, events: Seq<TraceEvent>) -> (Seq<TraceEvent>, usize)
    decreases events.len(),
{
    if events.len() == 0 {
        (slots, cursor)
    } else {
        let before = record_steps(slots, cursor, events.drop_last());
        record_step(before.0, before.1, events.last())
    }
}

/// A fresh ring of `n` slots that recorded `k` events holds the last `n` of
/// them: event `j` in slot `j % n` for each of the last `min(k, n)` events,
/// and the slots no event reached keep what they held; its cursor counts the
/// events. A ring without slots stays as it was.
pub proof fn lemma_ring_keeps_latest(slots: Seq<TraceEvent>, events: Seq<TraceEvent>)
    requires
        events.len() <= usize::MAX,
    ensures
        ({
            let after = record_steps(slots, 0, events);
            let n = slots.len() as int;
            let k = events.len() as int;
            &&& after.0.len() == n
            &&& n == 0 ==> after.0 == slots && after.1 == 0
            &&& n > 0 ==> after.1 == k
            &&& n > 0 ==> forall|j: int| k - n <= j < k && 0 <= j ==> after.0[j % n] == #[trigger] events[j]
            &&& n > 0 ==> forall|i: int| k <= i < n ==> #[trigger] after.0[i] == slots[i]
        }),
    decreases events.len(),
{
    let n = slots.len() as int;
    let k = events.len() as int;
    if k > 0 {
        let prefix = events.drop_last();
        lemma_ring_keeps_latest(slots, prefix);
        let before = record_steps(slots, 0, prefix);
        let after = record_steps(slots, 0, events);
        if n > 0 {
            assert(before.1 == k - 1);
            assert(after.1 == k);
            let last = (k - 1) % n;
            vstd::arithmetic::div_mod::lemma_mod_bound(k - 1, n);
            assert(after.0 == before.0.update(last, events[k - 1]));
            assert forall|j: int| k - n <= j < k && 0 <= j implies after.0[j % n] == #[trigger] events[j] by {
                vstd::arithmetic::div_mod::lemma_mod_bound(j, n);
                if j < k - 1 {
                    assert(prefix[j] == events[j]);
                    vstd::arithmetic::div_mod::lemma_mod_equivalence(k - 1, j, n);
                    vstd::arithmetic::div_mod::lemma_small_mod((k - 1 - j) as nat, n as nat);
                    assert(j % n != last);
                }
            }
            assert forall|i: int| k <= i < n implies #[trigger] after.0[i] == slots[i] by {
                vstd::arithmetic::div_mod::lemma_small_mod((k - 1) as nat, n as nat);
            }
        }
    }
}

/// A ring of trace slots: each event overwrites the slot after the last one
/// written, wrapping round.
pub struct TraceBuffer {
    slots: Vec<TraceEvent>,
    cursor: usize,
}

impl TraceBuffer {
    /// The slots.
    pub closed spec fn slots_spec(&self) -> Seq<TraceEvent> {
        self.slots@
    }

    /// How many events were recorded, modulo the word size.
    pub closed spec fn cursor_spec(&self) -> usize {
        self.cursor
    }

    /// A ring over `slots`, starting at the first.
    pub fn new(slots: Vec<TraceEvent>) -> (r: Self)
        ensures
            r.slots_spec() == slots@,
            r.cursor_spec() == 0,
    {
        TraceBuffer { slots, cursor: 0 }
    }

    /// Writes `event` into the slot the cursor names and moves the cursor on;
    /// a ring without slots drops it.
    pub fn record(&mut self, event: TraceEvent)
        ensures
            (final(self).slots_spec(), final(self).cursor_spec()) == record_step(old(self).slots_spec(), old(self).cursor_spec(), event),
    {
        if self.slots.len() == 0 {
            return;
        }
        let index = self.cursor % self.slots.len();
        self.slots.set(index, event);
        self.cursor = self.cursor.wrapping_add(1);
    }

    /// The slots.
    pub fn slots(&self) -> (r: &[TraceEvent])
        ensures
            r@ == self.slots_spec(),
    {
        self.slots.as_slice()
    }

    /// The cursor.
    pub fn cursor(&self) -> (r: usize)
        ensures
            r == self.cursor_spec(),
    {
        self.cursor
    }
}

} // verus!
