//! A bounded buffer of recent events: the oldest event leaves when a new
//! one arrives at capacity.

use vstd::prelude::*;
use std::collections::VecDeque;
use crate::text::{decimal, push_char, u64_decimal};

verus! {

/// The events kept after `e` arrives at a buffer of `capacity` holding
/// `events`: the oldest leaves first when the buffer is at capacity.
pub open spec fn after_push<T>(events: Seq<T>, capacity: nat, e: T) -> Seq<T> {
    if events.len() >= capacity && events.len() > 0 {
        events.drop_first().push(e)
    } else {
        events.push(e)
    }
}

/// Ring buffer for events with configurable capacity.
#[derive(Debug)]
pub struct EventBuffer<T> {
    events: VecDeque<T>,
    capacity: usize,
}

impl<T> View for EventBuffer<T> {
    type V = Seq<T>;

    /// The events held, oldest first.
    closed spec fn view(&self) -> Seq<T> {
        self.events@
    }
}

impl<T> EventBuffer<T> {
    /// The capacity the buffer was made with.
    pub closed spec fn spec_capacity(&self) -> nat {
        self.capacity as nat
    }

    /// An empty buffer of the given capacity.
    pub fn new(capacity: usize) -> (r: Self)
        ensures
            r@ == Seq::<T>::empty(),
            r.spec_capacity() == capacity,
    {
        EventBuffer { events: VecDeque::with_capacity(capacity), capacity }
    }

    /// Add an event, evicting the oldest if at capacity.
    pub fn push(&mut self, event: T)
        ensures
            final(self)@ == after_push(old(self)@, old(self).spec_capacity(), event),
            final(self).spec_capacity() == old(self).spec_capacity(),
    {
        if self.events.len() >= self.capacity {
            let _ = self.events.pop_front();
        }
        self.events.push_back(event);
    }

    /// The number of events held.
    pub fn len(&self) -> (r: usize)
        ensures
            r == self@.len(),
    {
        self.events.len()
    }

    /// Whether no event is held.
    pub fn is_empty(&self) -> (r: bool)
        ensures
            r == (self@.len() == 0),
    {
        self.events.len() == 0
    }

    /// The event at reverse index `index` (0 = newest, len-1 = oldest).
    pub fn get_rev(&self, index: usize) -> (r: Option<&T>)
        ensures
            r == (if index < self@.len() {
                Some(&self@[self@.len() - 1 - index])
            } else {
                None::<&T>
            }),
    {
        let len = self.events.len();
        if index < len {
            Some(&self.events[len - 1 - index])
        } else {
            None
        }
    }

    /// The events newest first.
    pub fn iter_rev(&self) -> (r: Vec<&T>)
        ensures
            r@.len() == self@.len(),
            forall|k: int| 0 <= k < self@.len() ==> r@[k] == &self@[self@.len() - 1 - k],
    {
        let len = self.events.len();
        let mut r: Vec<&T> = Vec::new();
        let mut k: usize = 0;
        while k < len
            invariant
                len == self@.len(),
                k <= len,
                r@.len() == k,
                forall|m: int| 0 <= m < k ==> r@[m] == &self@[len - 1 - m],
            decreases len - k,
        {
            r.push(&self.events[len - 1 - k]);
            k = k + 1;
        }
        r
    }
}

/// A buffer never holds more events than its capacity, or one event when
/// its capacity is zero.
pub proof fn lemma_push_bounded<T>(events: Seq<T>, capacity: nat, e: T)
    requires
        events.len() <= if capacity == 0 { 1 } else { capacity },
    ensures
        after_push(events, capacity, e).len() <= if capacity == 0 { 1 } else { capacity },
        after_push(events, capacity, e).last() == e,
{
}

/// A push keeps, in order, the newest events before it: all of them when
/// there is room, all but the oldest when the buffer is full.
pub proof fn lemma_push_keeps_newest<T>(events: Seq<T>, capacity: nat, e: T)
    ensures
        after_push(events, capacity, e).drop_last() == if events.len() >= capacity && events.len() > 0 {
            events.drop_first()
        } else {
            events
        },
{
    if events.len() >= capacity && events.len() > 0 {
        assert(events.drop_first().push(e).drop_last() =~= events.drop_first());
    } else {
        assert(events.push(e).drop_last() =~= events);
    }
}

/// Below capacity a buffer keeps every event and adds the new one last; at
/// capacity it keeps as many events, drops the oldest, shifts the others
/// one place towards the front and adds the new one last.
pub proof fn lemma_buffer_keeps_the_latest<T>(events: Seq<T>, capacity: nat, e: T)
    ensures
        events.len() < capacity ==> after_push(events, capacity, e) == events.push(e),
        events.len() == 0 ==> after_push(events, capacity, e) == seq![e],
        (events.len() >= capacity && events.len() > 0) ==> after_push(events, capacity, e).len() == events.len(),
        (events.len() >= capacity && events.len() > 0) ==> forall|i: int|
            0 <= i < events.len() - 1 ==> #[trigger] after_push(events, capacity, e)[i] == events[i + 1],
        after_push(events, capacity, e).last() == e,
{
    if events.len() == 0 {
        assert(events.push(e) =~= seq![e]);
    }
}

/// How long ago an event arrived, from its age in whole seconds: seconds
/// below a minute, whole minutes below five minutes, then "5m+".
pub open spec fn age_label(secs: nat) -> Seq<char> {
    if secs < 60 {
        decimal(secs) + "s"@
    } else if secs < 300 {
        decimal(secs / 60) + "m"@
    } else {
        "5m+"@
    }
}

/// The text of an event's age (`"2s"`, `"1m"`, `"5m+"`).
pub fn age_text(secs: u64) -> (r: String)
    ensures
        r@ == age_label(secs as nat),
{
    proof {
        reveal_strlit("s");
        reveal_strlit("m");
    }
    if secs < 60 {
        let mut s = u64_decimal(secs);
        push_char(&mut s, 's');
        assert(s@ =~= decimal(secs as nat) + "s"@);
        s
    } else if secs < 300 {
        let mut s = u64_decimal(secs / 60);
        push_char(&mut s, 'm');
        assert(s@ =~= decimal((secs / 60) as nat) + "m"@);
        s
    } else {
        "5m+".to_owned()
    }
}

} // verus!
