//! The two spawn stages: an edge-triggered detector that publishes requests,
//! and a consumer that turns each request into a new dynamic body.
use vstd::prelude::*;
use crate::events::{EventQueue, ReaderCursor, cursor_after};
use crate::geometry::{Body, Point, World, dynamic_cuboid, make_dynamic_cuboid};

verus! {

/// Half-extent of every body spawned at runtime: 0.5 units.
pub const SPAWN_HALF_EXTENT: i64 = 500;

/// Whether a key sampled `pressed` after having been sampled `previous` has
/// just gone down.
pub open spec fn rising_edge(previous: bool, pressed: bool) -> bool {
    pressed && !previous
}

/// Publishes one spawn request on each rising edge of the trigger key.
pub struct SpawnDetector {
    previous: bool,
}

impl View for SpawnDetector {
    type V = bool;

    /// The key's state at the previous sample.
    closed spec fn view(&self) -> bool {
        self.previous
    }
}

impl SpawnDetector {
    /// A detector for a key that starts released.
    pub fn new() -> (d: SpawnDetector)
        ensures
            d@ == false,
    {
        SpawnDetector { previous: false }
    }

    /// Takes this tick's sample of the trigger key and publishes one event to
    /// `queue` exactly when the key went from released to pressed.
    pub fn detect(&mut self, pressed: bool, queue: &mut EventQueue) -> (published: bool)
        requires
            old(queue).wf(),
            old(queue)@.next_sequence < u64::MAX,
        ensures
            published == rising_edge(old(self)@, pressed),
            final(self)@ == pressed,
            final(queue).wf(),
            final(queue)@ == if published {
                old(queue)@.published()
            } else {
                old(queue)@
            },
    {
        let published = pressed && !self.previous;
        if published {
            queue.publish();
        }
        self.previous = pressed;
        published
    }
}

/// How many events a detector starting from `previous` publishes over `samples`,
/// one sample per tick.
pub open spec fn publications(previous: bool, samples: Seq<bool>) -> nat
    decreases samples.len(),
{
    if samples.len() == 0 {
        0
    } else {
        (if rising_edge(previous, samples[0]) { 1nat } else { 0nat }) + publications(
            samples[0],
            samples.drop_first(),
        )
    }
}

/// The sample before `samples[k]`: `initial` for the first.
pub open spec fn sample_before(initial: bool, samples: Seq<bool>, k: int) -> bool {
    if k == 0 {
        initial
    } else {
        samples[k - 1]
    }
}

/// Number of released-to-pressed transitions among the first `n` samples.
pub open spec fn transitions_in(initial: bool, samples: Seq<bool>, n: int) -> nat
    decreases n,
{
    if n <= 0 {
        0
    } else {
        transitions_in(initial, samples, n - 1) + if rising_edge(
            sample_before(initial, samples, n - 1),
            samples[n - 1],
        ) {
            1nat
        } else {
            0nat
        }
    }
}

pub open spec fn transitions(initial: bool, samples: Seq<bool>) -> nat {
    transitions_in(initial, samples, samples.len() as int)
}

proof fn lemma_transitions_split(initial: bool, samples: Seq<bool>, n: int)
    requires
        1 <= n <= samples.len(),
    ensures
        transitions_in(initial, samples, n) == (if rising_edge(initial, samples[0]) { 1nat } else {
            0nat
        }) + transitions_in(samples[0], samples.drop_first(), n - 1),
    decreases n,
{
    if n > 1 {
        lemma_transitions_split(initial, samples, n - 1);
        assert(samples.drop_first()[n - 2] == samples[n - 1]);
        if n > 2 {
            assert(samples.drop_first()[n - 3] == samples[n - 2]);
        }
        assert(sample_before(samples[0], samples.drop_first(), n - 2) == sample_before(
            initial,
            samples,
            n - 1,
        ));
    } else {
        assert(transitions_in(initial, samples, 0) == 0);
        assert(transitions_in(samples[0], samples.drop_first(), 0) == 0);
    }
}

/// Rising edges only: over any run of per-tick samples, a detector publishes
/// exactly as many events as the key made released-to-pressed transitions.
pub proof fn lemma_publications_are_transitions(initial: bool, samples: Seq<bool>)
    ensures
        publications(initial, samples) == transitions(initial, samples),
    decreases samples.len(),
{
    if samples.len() > 0 {
        lemma_publications_are_transitions(samples[0], samples.drop_first());
        lemma_transitions_split(initial, samples, samples.len() as int);
    }
}

/// The body created for one spawn request at `p`.
pub open spec fn spawned_body(p: Point) -> Body {
    dynamic_cuboid(p, 500, 500)
}

/// `n` bodies created at `p`.
pub open spec fn spawned_bodies(p: Point, n: nat) -> Seq<Body> {
    Seq::new(n, |k: int| spawned_body(p))
}

/// Turns each spawn request it reads into one dynamic body at a fixed point.
pub struct SpawnConsumer {
    reader: ReaderCursor,
    spawn_point: Point,
}

impl SpawnConsumer {
    pub closed spec fn cursor(&self) -> nat {
        self.reader@
    }

    pub closed spec fn spawn_point_spec(&self) -> Point {
        self.spawn_point
    }

    /// A consumer that has read nothing yet.
    pub fn new(spawn_point: Point) -> (c: SpawnConsumer)
        ensures
            c.cursor() == 0,
            c.spawn_point_spec() == spawn_point,
    {
        SpawnConsumer { reader: ReaderCursor::new(), spawn_point }
    }

    pub fn spawn_point(&self) -> (p: Point)
        ensures
            p == self.spawn_point_spec(),
    {
        self.spawn_point
    }

    /// Drains the events visible to this consumer and registers one new dynamic
    /// body at the spawn point for each; returns how many it registered.
    pub fn consume(&mut self, queue: &EventQueue, world: &mut World) -> (spawned: usize)
        requires
            queue.wf(),
        ensures
            spawned == queue@.visible_after(old(self).cursor()).len(),
            final(world)@ == old(world)@ + spawned_bodies(old(self).spawn_point_spec(), spawned as nat),
            final(self).cursor() == cursor_after(
                old(self).cursor(),
                queue@.visible_after(old(self).cursor()),
            ),
            final(self).spawn_point_spec() == old(self).spawn_point_spec(),
    {
        let drained = queue.drain_for(&mut self.reader);
        let p = self.spawn_point;
        let ghost w0 = world@;
        let mut k: usize = 0;
        while k < drained.len()
            invariant
                p == self.spawn_point,
                0 <= k <= drained@.len(),
                world@ == w0 + spawned_bodies(p, k as nat),
            decreases drained@.len() - k,
        {
            let cube = make_dynamic_cuboid(p, SPAWN_HALF_EXTENT, SPAWN_HALF_EXTENT);
            world.register_body(cube.body, cube.collider);
            assert(spawned_bodies(p, (k + 1) as nat) =~= spawned_bodies(p, k as nat).push(cube));
            assert(world@ =~= w0 + spawned_bodies(p, (k + 1) as nat));
            k = k + 1;
        }
        drained.len()
    }
}

} // verus!
