//! A multi-reader broadcast queue of spawn requests with a two-tick retention window.
use vstd::prelude::*;

verus! {

broadcast use {vstd::seq_lib::group_seq_properties, vstd::seq_lib::group_filter_ensures};

/// A request to spawn one body. It carries no payload: it is identified by its
/// sequence number and stamped with the tick it was published in.
#[derive(Clone, Copy, Debug, PartialEq, Eq, Structural)]
pub struct SpawnEvent {
    pub sequence: u64,
    pub tick: u64,
}

/// The abstract state of an `EventQueue`.
pub ghost struct QueueState {
    /// Retained events, in publication order.
    pub events: Seq<SpawnEvent>,
    /// Sequence number the next published event gets.
    pub next_sequence: nat,
    pub current_tick: nat,
}

/// Whether an event published at `tick` is still visible at `now`: during its
/// own tick and the following one.
pub open spec fn within_window(tick: int, now: int) -> bool {
    tick + 1 >= now
}

impl QueueState {
    pub open spec fn wf(self) -> bool {
        &&& 1 <= self.next_sequence <= u64::MAX
        &&& self.current_tick <= u64::MAX
        &&& forall|k: int|
            0 <= k < self.events.len() ==> {
                &&& 1 <= (#[trigger] self.events[k]).sequence < self.next_sequence
                &&& self.events[k].tick <= self.current_tick
                &&& within_window(self.events[k].tick as int, self.current_tick as int)
            }
        &&& forall|a: int, b: int|
            0 <= a < b < self.events.len() ==> (#[trigger] self.events[a]).sequence
                < (#[trigger] self.events[b]).sequence
    }

    /// The event the next `publish` appends.
    pub open spec fn next_event(self) -> SpawnEvent {
        SpawnEvent { sequence: self.next_sequence as u64, tick: self.current_tick as u64 }
    }

    pub open spec fn published(self) -> QueueState {
        QueueState {
            events: self.events.push(self.next_event()),
            next_sequence: self.next_sequence + 1,
            current_tick: self.current_tick,
        }
    }

    /// Moves to the next tick, dropping every event that leaves the window.
    pub open spec fn advanced(self) -> QueueState {
        QueueState {
            events: self.events.filter(|e: SpawnEvent| within_window(e.tick as int, (self.current_tick + 1) as int)),
            next_sequence: self.next_sequence,
            current_tick: self.current_tick + 1,
        }
    }

    /// What a reader that has consumed everything up to `last_seen` receives now.
    pub open spec fn visible_after(self, last_seen: nat) -> Seq<SpawnEvent> {
        self.events.filter(
            |e: SpawnEvent| e.sequence > last_seen && within_window(e.tick as int, self.current_tick as int),
        )
    }
}

/// Where a reader's cursor stands after reading `delivered` from `last_seen`.
pub open spec fn cursor_after(last_seen: nat, delivered: Seq<SpawnEvent>) -> nat {
    if delivered.len() == 0 {
        last_seen
    } else {
        delivered.last().sequence as nat
    }
}

/// The position of one reader in an `EventQueue`: the last sequence number it consumed.
#[derive(Clone, Copy, Debug)]
pub struct ReaderCursor {
    last_seen: u64,
}

impl View for ReaderCursor {
    type V = nat;

    closed spec fn view(&self) -> nat {
        self.last_seen as nat
    }
}

impl ReaderCursor {
    /// A reader that has consumed nothing yet.
    pub fn new() -> (c: ReaderCursor)
        ensures
            c@ == 0,
    {
        ReaderCursor { last_seen: 0 }
    }

    pub fn last_seen(&self) -> (r: u64)
        ensures
            r == self@,
    {
        self.last_seen
    }
}

pub struct EventQueue {
    events: Vec<SpawnEvent>,
    next_sequence: u64,
    current_tick: u64,
}

impl View for EventQueue {
    type V = QueueState;

    closed spec fn view(&self) -> QueueState {
        QueueState {
            events: self.events@,
            next_sequence: self.next_sequence as nat,
            current_tick: self.current_tick as nat,
        }
    }
}

impl EventQueue {
    pub open spec fn wf(&self) -> bool {
        self@.wf()
    }

    /// An empty queue at tick 0, whose first event will be numbered 1.
    pub fn new() -> (q: EventQueue)
        ensures
            q.wf(),
            q@.events.len() == 0,
            q@.next_sequence == 1,
            q@.current_tick == 0,
    {
        EventQueue { events: Vec::new(), next_sequence: 1, current_tick: 0 }
    }

    pub fn current_tick(&self) -> (t: u64)
        ensures
            t == self@.current_tick,
    {
        self.current_tick
    }

    /// Number of events currently retained.
    pub fn len(&self) -> (n: usize)
        ensures
            n == self@.events.len(),
    {
        self.events.len()
    }

    /// Appends one event, stamped with the next sequence number and the current tick.
    pub fn publish(&mut self) -> (e: SpawnEvent)
        requires
            old(self).wf(),
            old(self)@.next_sequence < u64::MAX,
        ensures
            final(self).wf(),
            final(self)@ == old(self)@.published(),
            e == old(self)@.next_event(),
    {
        let e = SpawnEvent { sequence: self.next_sequence, tick: self.current_tick };
        self.events.push(e);
        self.next_sequence = self.next_sequence + 1;
        proof {
            let s0 = old(self)@;
            assert forall|k: int| 0 <= k < s0.events.len() implies self@.events[k] == s0.events[k] by {}
        }
        e
    }

    /// Starts the next tick: the tick counter moves on by one, and every event
    /// published before the previous tick is dropped for good.
    pub fn advance_tick(&mut self)
        requires
            old(self).wf(),
            old(self)@.current_tick < u64::MAX,
        ensures
            final(self).wf(),
            final(self)@ == old(self)@.advanced(),
    {
        let ghost s = self@;
        let now = self.current_tick + 1;
        let ghost keep = |e: SpawnEvent| within_window(e.tick as int, now as int);
        let mut kept: Vec<SpawnEvent> = Vec::new();
        let mut i: usize = 0;
        while i < self.events.len()
            invariant
                self@ == s,
                s.wf(),
                now == s.current_tick + 1,
                keep == (|e: SpawnEvent| within_window(e.tick as int, now as int)),
                0 <= i <= s.events.len(),
                kept@ == s.events.subrange(0, i as int).filter(keep),
            decreases s.events.len() - i,
        {
            let e = self.events[i];
            proof {
                assert(s.events.subrange(0, i + 1).drop_last() =~= s.events.subrange(0, i as int));
                reveal(Seq::filter);
            }
            if e.tick >= self.current_tick {
                kept.push(e);
            }
            i = i + 1;
        }
        proof {
            assert(s.events.subrange(0, i as int) =~= s.events);
            let f = s.events.filter(keep);
            assert forall|k: int| 0 <= k < f.len() implies {
                &&& 1 <= (#[trigger] f[k]).sequence < s.next_sequence
                &&& f[k].tick <= now
                &&& within_window(f[k].tick as int, now as int)
            } by {
                assert(f.contains(f[k]));
                s.events.lemma_filter_contains_rev(keep, f[k]);
            }
            assert forall|a: int, b: int| 0 <= a < b < f.len() implies (#[trigger] f[a]).sequence
                < (#[trigger] f[b]).sequence by {
                lemma_filter_keeps_order(s.events, keep, a, b);
            }
        }
        self.events = kept;
        self.current_tick = now;
    }

    /// Hands the reader every event it has not consumed yet that is still within
    /// the retention window, in publication order, and moves its cursor to the
    /// last one handed out.
    pub fn drain_for(&self, reader: &mut ReaderCursor) -> (r: Vec<SpawnEvent>)
        requires
            self.wf(),
        ensures
            r@ == self@.visible_after(old(reader)@),
            final(reader)@ == cursor_after(old(reader)@, r@),
    {
        let ghost s = self@;
        let last_seen = reader.last_seen;
        let ghost pick = |e: SpawnEvent|
            e.sequence > last_seen && within_window(e.tick as int, s.current_tick as int);
        let mut out: Vec<SpawnEvent> = Vec::new();
        let mut i: usize = 0;
        while i < self.events.len()
            invariant
                self@ == s,
                s.wf(),
                last_seen == old(reader)@,
                *reader == *old(reader),
                pick == (|e: SpawnEvent|
                    e.sequence > last_seen && within_window(e.tick as int, s.current_tick as int)),
                0 <= i <= s.events.len(),
                out@ == s.events.subrange(0, i as int).filter(pick),
            decreases s.events.len() - i,
        {
            let e = self.events[i];
            proof {
                assert(s.events.subrange(0, i + 1).drop_last() =~= s.events.subrange(0, i as int));
                reveal(Seq::filter);
            }
            if e.sequence > last_seen && e.tick >= self.current_tick.saturating_sub(1) {
                out.push(e);
            }
            i = i + 1;
        }
        assert(s.events.subrange(0, i as int) =~= s.events);
        if out.len() > 0 {
            reader.last_seen = out[out.len() - 1].sequence;
        }
        out
    }
}

/// Same-tick delivery: a reader that is not ahead of the queue receives an event
/// published in the current tick when it drains in that same tick, as the last
/// event handed to it.
pub proof fn lemma_same_tick_delivery(s: QueueState, last_seen: nat)
    requires
        s.wf(),
        s.next_sequence < u64::MAX,
        last_seen < s.next_sequence,
    ensures
        s.published().visible_after(last_seen).contains(s.next_event()),
        s.published().visible_after(last_seen).last() == s.next_event(),
{
    let t = s.published();
    let e = s.next_event();
    let pred = |x: SpawnEvent| x.sequence > last_seen && within_window(x.tick as int, t.current_tick as int);
    s.events.lemma_filter_push(e, pred);
    assert(t.visible_after(last_seen) == s.events.filter(pred).push(e));
    assert(t.visible_after(last_seen)[t.visible_after(last_seen).len() - 1] == e);
}

/// Bounded visibility: from two ticks after its publication on, an event is
/// never handed to any reader.
pub proof fn lemma_bounded_visibility(s: QueueState, last_seen: nat, e: SpawnEvent)
    requires
        s.current_tick >= e.tick + 2,
    ensures
        !s.visible_after(last_seen).contains(e),
{
    let f = s.visible_after(last_seen);
    if f.contains(e) {
        let k = choose|k: int| 0 <= k < f.len() && f[k] == e;
        assert(within_window(f[k].tick as int, s.current_tick as int));
    }
}

/// Filtering keeps relative order: a sequence ordered by sequence number stays so.
proof fn lemma_filter_keeps_order(s: Seq<SpawnEvent>, p: spec_fn(SpawnEvent) -> bool, a: int, b: int)
    requires
        forall|x: int, y: int| 0 <= x < y < s.len() ==> (#[trigger] s[x]).sequence < (#[trigger] s[y]).sequence,
        0 <= a < b < s.filter(p).len(),
    ensures
        s.filter(p)[a].sequence < s.filter(p)[b].sequence,
    decreases s.len(),
{
    reveal(Seq::filter);
    let t = s.drop_last();
    if p(s.last()) && b == s.filter(p).len() - 1 {
        let x = s.filter(p)[a];
        assert(x == t.filter(p)[a]);
        assert(t.filter(p).contains(x));
        t.lemma_filter_contains_rev(p, x);
        let k = choose|k: int| 0 <= k < t.len() && t[k] == x;
        assert(s[k] == t[k]);
        assert(s[s.len() - 1] == s.last());
    } else {
        lemma_filter_keeps_order(t, p, a, b);
    }
}

} // verus!
