use spawn_scene::diagnostics::TICK_MARK;
use spawn_scene::geometry::{BodyKind, Point};
use spawn_scene::scene::{ConfigError, SceneConfig};
use spawn_scene::schedule::{Simulation, TickReport};

fn example_config() -> SceneConfig {
    SceneConfig {
        ground_size: 10_000,
        stack_count: 1,
        body_radius: 500,
        spawn_point: Point { x: 0, y: 30_000 },
        metric_history_size: 10,
        diagnostics_enabled: true,
    }
}

#[test]
fn key_press_spawns_body_in_same_tick() {
    let mut sim = Simulation::startup(&example_config()).unwrap();
    assert_eq!(sim.world().len(), 8);
    assert!(sim.recorder().unwrap().history().is_empty());
    let report = sim.tick(true);
    assert_eq!(report, TickReport { published: true, spawned: 1 });
    assert_eq!(sim.world().len(), 9);
    let b = sim.world().get(8);
    assert_eq!(b.body.kind, BodyKind::Dynamic);
    assert_eq!(b.body.position, Point { x: 0, y: 30_000 });
    assert_eq!(sim.recorder().unwrap().history(), vec![TICK_MARK]);
    assert_eq!(sim.ticks(), 1);
}

#[test]
fn held_key_spawns_once() {
    let mut sim = Simulation::startup(&example_config()).unwrap();
    let mut spawned = 0;
    for pressed in [true, true, true, false, true] {
        spawned += sim.tick(pressed).spawned;
    }
    assert_eq!(spawned, 2);
    assert_eq!(sim.world().len(), 10);
}

#[test]
fn metric_history_is_bounded() {
    let mut sim = Simulation::startup(&example_config()).unwrap();
    for _ in 0..25 {
        sim.tick(false);
    }
    assert_eq!(sim.recorder().unwrap().history(), vec![TICK_MARK; 10]);
    assert_eq!(sim.queue().current_tick(), 25);
}

#[test]
fn diagnostics_can_be_disabled() {
    let config = SceneConfig { diagnostics_enabled: false, ..example_config() };
    let mut sim = Simulation::startup(&config).unwrap();
    sim.tick(true);
    assert!(sim.recorder().is_none());
    assert_eq!(sim.world().len(), 9);
}

#[test]
fn bad_configuration_creates_no_simulation() {
    let config = SceneConfig { stack_count: 0, ..example_config() };
    assert_eq!(Simulation::startup(&config).err(), Some(ConfigError::EmptyGrid));
}
