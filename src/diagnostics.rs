//! A rolling per-tick diagnostic metric with a bounded, first-in first-out history.
use vstd::prelude::*;

verus! {

/// Identifier of the "system iteration count" metric.
pub const SYSTEM_ITERATION_COUNT: u128 = 337040787172757619024841343456040760896;

/// Measurement recorded once per executed tick.
pub const TICK_MARK: u64 = 10;

/// Default capacity of a metric's history.
pub const DEFAULT_HISTORY_SIZE: usize = 10;

/// The last `h` entries of `s` (all of them when `s` is shorter), oldest first.
pub open spec fn most_recent(s: Seq<u64>, h: nat) -> Seq<u64> {
    if s.len() <= h {
        s
    } else {
        s.subrange(s.len() - h, s.len() as int)
    }
}

/// The history after adding `m` to `history` with capacity `h`: `m` is
/// appended, and the oldest entry is evicted when the history is already full.
pub open spec fn next_history(history: Seq<u64>, m: u64, h: nat) -> Seq<u64> {
    if h == 0 {
        history
    } else if history.len() < h {
        history.push(m)
    } else {
        history.drop_first().push(m)
    }
}

/// One named metric whose history keeps only its most recent measurements.
pub struct DiagnosticRecorder {
    id: u128,
    name: String,
    max_history: usize,
    history: Vec<u64>,
    /// Every measurement ever added, oldest first.
    recorded: Ghost<Seq<u64>>,
}

impl DiagnosticRecorder {
    pub closed spec fn id_spec(&self) -> u128 {
        self.id
    }

    pub closed spec fn name_spec(&self) -> Seq<char> {
        self.name@
    }

    pub closed spec fn max_history_spec(&self) -> nat {
        self.max_history as nat
    }

    pub closed spec fn history_spec(&self) -> Seq<u64> {
        self.history@
    }

    /// Every measurement added since registration, oldest first.
    pub closed spec fn recorded(&self) -> Seq<u64> {
        self.recorded@
    }

    /// The history holds the most recent measurements, at most `max_history` of them.
    pub open spec fn wf(&self) -> bool {
        self.history_spec() == most_recent(self.recorded(), self.max_history_spec())
    }

    /// Registers a metric with an empty history.
    pub fn new(id: u128, name: String, max_history: usize) -> (d: DiagnosticRecorder)
        ensures
            d.wf(),
            d.id_spec() == id,
            d.name_spec() == name@,
            d.max_history_spec() == max_history,
            d.recorded() == Seq::<u64>::empty(),
            d.history_spec() == Seq::<u64>::empty(),
    {
        DiagnosticRecorder { id, name, max_history, history: Vec::new(), recorded: Ghost(Seq::empty()) }
    }

    /// Registers the per-tick iteration metric.
    pub fn iteration_count(max_history: usize) -> (d: DiagnosticRecorder)
        ensures
            d.wf(),
            d.id_spec() == SYSTEM_ITERATION_COUNT,
            d.name_spec() == "system_iteration_count"@,
            d.max_history_spec() == max_history,
            d.recorded() == Seq::<u64>::empty(),
            d.history_spec() == Seq::<u64>::empty(),
    {
        DiagnosticRecorder::new(SYSTEM_ITERATION_COUNT, String::from_str("system_iteration_count"), max_history)
    }

    /// Appends `m` to the history, evicting the oldest entry when it is full.
    pub fn add_measurement(&mut self, m: u64)
        requires
            old(self).wf(),
        ensures
            final(self).wf(),
            final(self).recorded() == old(self).recorded().push(m),
            final(self).history_spec() == most_recent(final(self).recorded(), old(self).max_history_spec()),
            final(self).history_spec() == next_history(old(self).history_spec(), m, old(self).max_history_spec()),
            final(self).history_spec().len() <= final(self).max_history_spec(),
            final(self).recorded().len() >= final(self).max_history_spec()
                ==> final(self).history_spec().len() == final(self).max_history_spec(),
            final(self).id_spec() == old(self).id_spec(),
            final(self).name_spec() == old(self).name_spec(),
            final(self).max_history_spec() == old(self).max_history_spec(),
    {
        let ghost r0 = self.recorded@;
        let ghost h = self.max_history as nat;
        let ghost old_history = self.history@;
        assert(old_history == most_recent(r0, h));
        self.recorded = Ghost(self.recorded@.push(m));
        if self.max_history > 0 {
            if self.history.len() >= self.max_history {
                self.history.remove(0);
            }
            self.history.push(m);
        }
        proof {
            let r1 = r0.push(m);
            if h > 0 && r0.len() >= h {
                assert(old_history.len() == h);
                assert(self.history@ =~= old_history.subrange(1, h as int).push(m));
                assert(self.history@ =~= most_recent(r1, h));
            } else if h > 0 {
                assert(self.history@ =~= most_recent(r1, h));
            } else {
                assert(most_recent(r1, h) =~= Seq::<u64>::empty());
            }
            assert(self.recorded@ == r1);
            assert(self.history@ == most_recent(r1, h));
            assert(self.wf());
        }
    }

    /// Records that one more tick executed.
    pub fn record_tick(&mut self)
        requires
            old(self).wf(),
        ensures
            final(self).wf(),
            final(self).recorded() == old(self).recorded().push(TICK_MARK),
            final(self).history_spec() == most_recent(final(self).recorded(), old(self).max_history_spec()),
            final(self).history_spec() == next_history(
                old(self).history_spec(),
                TICK_MARK,
                old(self).max_history_spec(),
            ),
            final(self).id_spec() == old(self).id_spec(),
            final(self).name_spec() == old(self).name_spec(),
            final(self).max_history_spec() == old(self).max_history_spec(),
    {
        self.add_measurement(TICK_MARK);
    }

    pub fn id(&self) -> (r: u128)
        ensures
            r == self.id_spec(),
    {
        self.id
    }

    pub fn name(&self) -> (r: &String)
        ensures
            r@ == self.name_spec(),
    {
        &self.name
    }

    pub fn max_history(&self) -> (r: usize)
        ensures
            r == self.max_history_spec(),
    {
        self.max_history
    }

    /// A copy of the current history, oldest first.
    pub fn history(&self) -> (r: Vec<u64>)
        ensures
            r@ == self.history_spec(),
    {
        self.history.clone()
    }
}

/// Bounded history: once at least `h` measurements were recorded, the history
/// holds exactly `h` entries, the `h` most recent measurements in the order they
/// were recorded.
pub proof fn lemma_history_window(recorded: Seq<u64>, h: nat)
    requires
        recorded.len() >= h,
    ensures
        most_recent(recorded, h).len() == h,
        forall|k: int|
            0 <= k < h ==> #[trigger] most_recent(recorded, h)[k] == recorded[recorded.len() - h + k],
{
}

} // verus!
