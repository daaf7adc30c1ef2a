//! The bounded, first-in-first-out window of recently consumed events.

use std::collections::VecDeque;
use vstd::prelude::*;

verus! {

/// Number of events that the buffer of a running service retains.
pub const DEFAULT_CAPACITY: usize = 1000;

/// One consumed event: the record's identifier and its text.
pub struct StoredEvent {
    pub key: String,
    pub value: String,
}

/// The characters of an event's key and value.
pub ghost struct EventText {
    pub key: Seq<char>,
    pub value: Seq<char>,
}

impl View for StoredEvent {
    type V = EventText;

    open spec fn view(&self) -> EventText {
        EventText { key: self.key@, value: self.value@ }
    }
}

impl StoredEvent {
    pub fn new(key: String, value: String) -> (event: StoredEvent)
        ensures
            event.key == key,
            event.value == value,
    {
        StoredEvent { key, value }
    }

    /// An independent copy with the same key and value.
    pub fn duplicate(&self) -> (copy: StoredEvent)
        ensures
            copy == *self,
    {
        StoredEvent { key: self.key.clone(), value: self.value.clone() }
    }
}

/// The texts of a sequence of events, in the same order.
pub open spec fn texts(events: Seq<StoredEvent>) -> Seq<EventText> {
    events.map_values(|event: StoredEvent| event@)
}

/// The last `cap` elements of `history`, in their order; all of it where it
/// is no longer than `cap`.
pub open spec fn latest<T>(history: Seq<T>, cap: nat) -> Seq<T> {
    if history.len() <= cap {
        history
    } else {
        history.subrange(history.len() - cap, history.len() as int)
    }
}

/// What a buffer of capacity `cap` that started empty holds after the
/// elements of `pushed` were pushed one by one.
pub open spec fn replay<T>(pushed: Seq<T>, cap: nat) -> Seq<T>
    decreases pushed.len(),
{
    if pushed.len() == 0 {
        Seq::empty()
    } else {
        latest(replay(pushed.drop_last(), cap).push(pushed.last()), cap)
    }
}

/// Pushing onto the retained window of a history gives the retained window
/// of the longer history: eviction never removes a newer element while an
/// older one remains.
pub proof fn lemma_latest_push<T>(history: Seq<T>, item: T, cap: nat)
    ensures
        latest(latest(history, cap).push(item), cap) == latest(history.push(item), cap),
        latest(history, cap).len() <= cap,
{
    assert(latest(latest(history, cap).push(item), cap) =~= latest(history.push(item), cap));
}

/// After any sequence of pushes into an empty buffer, the buffer holds at
/// most `cap` elements: exactly the most recently pushed
/// `min(pushed.len(), cap)`, oldest first.
pub proof fn lemma_replay_is_latest<T>(pushed: Seq<T>, cap: nat)
    ensures
        replay(pushed, cap) == latest(pushed, cap),
        replay(pushed, cap).len() <= cap,
        replay(pushed, cap).len() == if pushed.len() <= cap { pushed.len() } else { cap },
        forall|i: int|
            0 <= i < replay(pushed, cap).len() ==> #[trigger] replay(pushed, cap)[i]
                == pushed[pushed.len() - replay(pushed, cap).len() + i],
    decreases pushed.len(),
{
    if pushed.len() > 0 {
        lemma_replay_is_latest(pushed.drop_last(), cap);
        lemma_latest_push(pushed.drop_last(), pushed.last(), cap);
        assert(pushed.drop_last().push(pushed.last()) =~= pushed);
    }
}

/// A reader that looks at the buffer between any two pushes, however the
/// reads and pushes are interleaved, sees at most `cap` elements, each of
/// them whole: one of the elements pushed so far.
pub proof fn lemma_read_after_any_prefix<T>(pushed: Seq<T>, seen: int, cap: nat)
    requires
        0 <= seen <= pushed.len(),
    ensures
        replay(pushed.take(seen), cap).len() <= cap,
        forall|i: int|
            0 <= i < replay(pushed.take(seen), cap).len() ==> exists|j: int|
                0 <= j < seen && #[trigger] replay(pushed.take(seen), cap)[i] == pushed[j],
{
    let prefix = pushed.take(seen);
    let held = replay(prefix, cap);
    lemma_replay_is_latest(prefix, cap);
    assert forall|i: int| 0 <= i < held.len() implies exists|j: int|
        0 <= j < seen && #[trigger] held[i] == pushed[j] by {
        let j = prefix.len() - held.len() + i;
        assert(held[i] == prefix[j]);
        assert(prefix[j] == pushed[j]);
    }
}

/// A bounded window over the stream of consumed events. A push beyond the
/// capacity evicts the oldest event.
pub struct IngestionBuffer {
    events: VecDeque<StoredEvent>,
    cap: usize,
}

impl View for IngestionBuffer {
    type V = Seq<EventText>;

    /// The retained events, oldest first.
    closed spec fn view(&self) -> Seq<EventText> {
        texts(self.events@)
    }
}

impl IngestionBuffer {
    /// The fixed capacity.
    pub closed spec fn cap(&self) -> nat {
        self.cap as nat
    }

    /// The buffer never holds more than its capacity.
    pub closed spec fn wf(&self) -> bool {
        self.events@.len() <= self.cap
    }

    /// An empty buffer of the default capacity.
    pub fn new() -> (buffer: IngestionBuffer)
        ensures
            buffer.wf(),
            buffer@ == Seq::<EventText>::empty(),
            buffer.cap() == DEFAULT_CAPACITY,
    {
        let buffer = IngestionBuffer { events: VecDeque::new(), cap: DEFAULT_CAPACITY };
        assert(buffer@ =~= Seq::<EventText>::empty());
        buffer
    }

    /// An empty buffer that retains at most `cap` events.
    pub fn with_capacity(cap: usize) -> (buffer: IngestionBuffer)
        ensures
            buffer.wf(),
            buffer@ == Seq::<EventText>::empty(),
            buffer.cap() == cap,
    {
        let buffer = IngestionBuffer { events: VecDeque::new(), cap };
        assert(buffer@ =~= Seq::<EventText>::empty());
        buffer
    }

    pub fn capacity(&self) -> (cap: usize)
        ensures
            cap == self.cap(),
    {
        self.cap
    }

    pub fn len(&self) -> (n: usize)
        ensures
            n == self@.len(),
    {
        self.events.len()
    }

    /// Appends `event` at the tail; where that exceeds the capacity, the
    /// oldest event leaves.
    pub fn push(&mut self, event: StoredEvent)
        requires
            old(self).wf(),
        ensures
            final(self).wf(),
            final(self).cap() == old(self).cap(),
            final(self)@ == latest(old(self)@.push(event@), old(self).cap()),
    {
        self.events.push_back(event);
        if self.events.len() > self.cap {
            let _ = self.events.pop_front();
        }
        assert(self@ =~= latest(old(self)@.push(event@), old(self).cap as nat));
    }

    /// A copy of the retained events, oldest first.
    pub fn snapshot(&self) -> (events: Vec<StoredEvent>)
        requires
            self.wf(),
        ensures
            texts(events@) == self@,
            events@.len() <= self.cap(),
    {
        let mut events: Vec<StoredEvent> = Vec::new();
        let n: usize = self.events.len();
        let mut i: usize = 0;
        while i < n
            invariant
                n == self.events@.len(),
                i <= n,
                events@ == self.events@.take(i as int),
            decreases n - i,
        {
            let copy = self.events[i].duplicate();
            events.push(copy);
            assert(self.events@.take(i as int).push(self.events@[i as int]) =~= self.events@.take(
                i + 1,
            ));
            i = i + 1;
        }
        assert(self.events@.take(n as int) =~= self.events@);
        events
    }
}

} // verus!
