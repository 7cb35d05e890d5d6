//! The tick scheduler: one explicit simulation state, started once, then driven
//! one tick at a time through the detect, consume and record stages.
use vstd::prelude::*;
use crate::diagnostics::{DiagnosticRecorder, SYSTEM_ITERATION_COUNT, TICK_MARK, most_recent, next_history};
use crate::events::{EventQueue, QueueState, cursor_after, lemma_same_tick_delivery};
use crate::geometry::{Body, Point, World};
use crate::scene::{ConfigError, SceneConfig, bootstrap, config_error, initial_scene};
use crate::spawn::{
    SpawnConsumer, SpawnDetector, lemma_publications_are_transitions, rising_edge, spawned_bodies,
    spawned_body, transitions,
};

verus! {

broadcast use {vstd::seq_lib::group_seq_properties, vstd::seq_lib::group_filter_ensures};

/// What one tick did.
#[derive(Clone, Copy, Debug, PartialEq, Eq, Structural)]
pub struct TickReport {
    /// Whether the detect stage published a spawn request.
    pub published: bool,
    /// How many bodies the consume stage registered.
    pub spawned: usize,
}

/// The state of a running scene, owned by the scheduler and handed to each stage.
pub struct Simulation {
    world: World,
    queue: EventQueue,
    detector: SpawnDetector,
    consumer: SpawnConsumer,
    recorder: Option<DiagnosticRecorder>,
    ticks: u64,
}

/// The queue as the scheduler leaves it after a tick whose detect stage
/// published or not.
pub open spec fn queue_after_tick(q: QueueState, published: bool) -> QueueState {
    if published {
        q.advanced().published()
    } else {
        q.advanced()
    }
}

/// The queue after one tick per entry of `samples`, the key having been
/// sampled `previous` at the tick before the first.
pub open spec fn queue_after_ticks(q: QueueState, previous: bool, samples: Seq<bool>) -> QueueState
    decreases samples.len(),
{
    if samples.len() == 0 {
        q
    } else {
        queue_after_ticks(
            queue_after_tick(q, rising_edge(previous, samples[0])),
            samples[0],
            samples.drop_first(),
        )
    }
}

/// Rising edges only: over any run of ticks, the number of events published
/// (the growth of the queue's sequence counter) equals the number of
/// released-to-pressed transitions among the per-tick key samples.
pub proof fn lemma_ticks_publish_transitions(q: QueueState, previous: bool, samples: Seq<bool>)
    ensures
        queue_after_ticks(q, previous, samples).next_sequence == q.next_sequence + transitions(
            previous,
            samples,
        ),
    decreases samples.len(),
{
    lemma_publications_are_transitions(previous, samples);
    if samples.len() > 0 {
        let rest = samples.drop_first();
        lemma_ticks_publish_transitions(
            queue_after_tick(q, rising_edge(previous, samples[0])),
            samples[0],
            rest,
        );
        lemma_publications_are_transitions(samples[0], rest);
    }
}

impl Simulation {
    pub closed spec fn world_spec(&self) -> Seq<Body> {
        self.world@
    }

    pub closed spec fn queue_spec(&self) -> QueueState {
        self.queue@
    }

    /// The trigger key's state at the previous tick.
    pub closed spec fn key_was_pressed(&self) -> bool {
        self.detector@
    }

    pub closed spec fn cursor(&self) -> nat {
        self.consumer.cursor()
    }

    pub closed spec fn spawn_point_spec(&self) -> Point {
        self.consumer.spawn_point_spec()
    }

    pub closed spec fn ticks_spec(&self) -> nat {
        self.ticks as nat
    }

    pub closed spec fn recorder_spec(&self) -> Option<DiagnosticRecorder> {
        self.recorder
    }

    pub closed spec fn wf(&self) -> bool {
        &&& self.queue.wf()
        &&& self.queue@.current_tick == self.ticks
        &&& self.queue@.next_sequence <= self.queue@.current_tick + 1
        &&& self.consumer.cursor() < self.queue@.next_sequence
        &&& self.recorder matches Some(r) ==> r.wf()
    }

    /// Builds the initial scene and registers the iteration metric when
    /// diagnostics are enabled. Fails, creating nothing, on a configuration
    /// that `config_error` rejects.
    pub fn startup(c: &SceneConfig) -> (r: Result<Simulation, ConfigError>)
        ensures
            match r {
                Ok(sim) => {
                    &&& config_error(*c) is None
                    &&& sim.wf()
                    &&& sim.world_spec() == initial_scene(*c)
                    &&& sim.queue_spec().events.len() == 0
                    &&& sim.ticks_spec() == 0
                    &&& sim.key_was_pressed() == false
                    &&& sim.spawn_point_spec() == c.spawn_point
                    &&& match sim.recorder_spec() {
                        Some(d) => {
                            &&& c.diagnostics_enabled
                            &&& d.id_spec() == SYSTEM_ITERATION_COUNT
                            &&& d.name_spec() == "system_iteration_count"@
                            &&& d.max_history_spec() == c.metric_history_size
                            &&& d.recorded().len() == 0
                            &&& d.history_spec().len() == 0
                        },
                        None => !c.diagnostics_enabled,
                    }
                },
                Err(e) => config_error(*c) == Some(e),
            },
    {
        let world = match bootstrap(c) {
            Ok(w) => w,
            Err(e) => {
                return Err(e);
            },
        };
        let recorder = if c.diagnostics_enabled {
            Some(DiagnosticRecorder::iteration_count(c.metric_history_size))
        } else {
            None
        };
        Ok(
            Simulation {
                world,
                queue: EventQueue::new(),
                detector: SpawnDetector::new(),
                consumer: SpawnConsumer::new(c.spawn_point),
                recorder,
                ticks: 0,
            },
        )
    }

    /// Runs one tick: the queue moves to the next tick, the detect stage samples
    /// the trigger key, the consume stage spawns one body per request it drains,
    /// and the record stage adds one measurement.
    pub fn tick(&mut self, pressed: bool) -> (report: TickReport)
        requires
            old(self).wf(),
            old(self).ticks_spec() + 2 < u64::MAX,
        ensures
            final(self).wf(),
            final(self).ticks_spec() == old(self).ticks_spec() + 1,
            report.published == rising_edge(old(self).key_was_pressed(), pressed),
            final(self).key_was_pressed() == pressed,
            final(self).queue_spec() == queue_after_tick(old(self).queue_spec(), report.published),
            report.spawned == final(self).queue_spec().visible_after(old(self).cursor()).len(),
            final(self).cursor() == cursor_after(
                old(self).cursor(),
                final(self).queue_spec().visible_after(old(self).cursor()),
            ),
            final(self).world_spec() == old(self).world_spec() + spawned_bodies(
                old(self).spawn_point_spec(),
                report.spawned as nat,
            ),
            final(self).spawn_point_spec() == old(self).spawn_point_spec(),
            report.published ==> report.spawned >= 1 && final(self).world_spec().last()
                == spawned_body(old(self).spawn_point_spec()),
            match (old(self).recorder_spec(), final(self).recorder_spec()) {
                (Some(a), Some(b)) => {
                    &&& b.recorded() == a.recorded().push(TICK_MARK)
                    &&& b.history_spec() == most_recent(b.recorded(), b.max_history_spec())
                    &&& b.history_spec() == next_history(a.history_spec(), TICK_MARK, a.max_history_spec())
                    &&& b.name_spec() == a.name_spec()
                    &&& b.id_spec() == a.id_spec()
                    &&& b.max_history_spec() == a.max_history_spec()
                },
                (None, None) => true,
                _ => false,
            },
    {
        let ghost q0 = self.queue@;
        let ghost c0 = self.consumer.cursor();
        self.queue.advance_tick();
        self.ticks = self.ticks + 1;
        let published = self.detector.detect(pressed, &mut self.queue);
        proof {
            if published {
                lemma_same_tick_delivery(q0.advanced(), c0);
            }
        }
        let spawned = self.consumer.consume(&self.queue, &mut self.world);
        proof {
            let d = self.queue@.visible_after(c0);
            if d.len() > 0 {
                assert(d.contains(d.last()));
                self.queue@.events.lemma_filter_contains_rev(
                    |e: crate::events::SpawnEvent|
                        e.sequence > c0 && crate::events::within_window(
                            e.tick as int,
                            self.queue@.current_tick as int,
                        ),
                    d.last(),
                );
            }
        }
        match self.recorder.take() {
            Some(mut r) => {
                r.record_tick();
                self.recorder = Some(r);
            },
            None => {},
        }
        TickReport { published, spawned }
    }

    pub fn world(&self) -> (w: &World)
        ensures
            w@ == self.world_spec(),
    {
        &self.world
    }

    pub fn queue(&self) -> (q: &EventQueue)
        ensures
            q@ == self.queue_spec(),
    {
        &self.queue
    }

    pub fn ticks(&self) -> (t: u64)
        ensures
            t == self.ticks_spec(),
    {
        self.ticks
    }

    /// The iteration metric, when diagnostics are enabled.
    pub fn recorder(&self) -> (d: Option<&DiagnosticRecorder>)
        ensures
            match (d, self.recorder_spec()) {
                (Some(a), Some(b)) => *a == b,
                (None, None) => true,
                _ => false,
            },
    {
        self.recorder.as_ref()
    }
}

} // verus!
