use spawn_scene::geometry::{Body, BodyKind, Point, Rotation};
use spawn_scene::scene::{
    bootstrap, ConfigError, SceneConfig, MAX_GRID_SPAN, MAX_GROUND_SIZE, MAX_STACK_COUNT,
};

fn example_config() -> SceneConfig {
    SceneConfig {
        ground_size: 10_000,
        stack_count: 1,
        body_radius: 500,
        spawn_point: Point { x: 0, y: 30_000 },
        metric_history_size: 10,
        diagnostics_enabled: true,
    }
}

#[test]
fn example_scene_has_enclosure_and_five_cubes() {
    let world = bootstrap(&example_config()).unwrap();
    let bodies = world.bodies();
    assert_eq!(bodies.len(), 8);
    let statics = [
        (Point { x: 0, y: 0 }, Rotation::Upright, 10_000),
        (Point { x: 10_000, y: 20_000 }, Rotation::QuarterTurn, 20_000),
        (Point { x: -10_000, y: 20_000 }, Rotation::QuarterTurn, 20_000),
    ];
    for (k, (p, rot, half_width)) in statics.iter().enumerate() {
        assert_eq!(bodies[k].body.kind, BodyKind::Static);
        assert_eq!(bodies[k].body.position, *p);
        assert_eq!(bodies[k].body.rotation, *rot);
        assert_eq!(bodies[k].collider.half_width, *half_width);
        assert_eq!(bodies[k].collider.half_height, 1200);
    }
    let ys = [11_500, 12_500, 13_500, 14_500, 15_500];
    for (k, y) in ys.iter().enumerate() {
        let b = bodies[3 + k];
        assert_eq!(b.body.kind, BodyKind::Dynamic);
        assert_eq!(b.body.position, Point { x: -500, y: *y });
        assert_eq!(b.body.rotation, Rotation::Upright);
        assert_eq!(b.collider.half_width, 500);
        assert_eq!(b.collider.half_height, 500);
        assert_eq!(b.collider.density, 1000);
    }
}

#[test]
fn default_scene_has_three_statics_and_n_by_5n_grid() {
    let config = SceneConfig::default();
    assert_eq!(config.stack_count, 5);
    let world = bootstrap(&config).unwrap();
    assert_eq!(world.len(), 3 + 5 * 25);
    let bodies = world.bodies();
    let statics = bodies.iter().filter(|b| b.body.kind == BodyKind::Static).count();
    let dynamics = bodies.iter().filter(|b| b.body.kind == BodyKind::Dynamic).count();
    assert_eq!(statics, 3);
    assert_eq!(dynamics, 125);
}

#[test]
fn grid_is_ordered_column_outer_row_inner() {
    let config = SceneConfig { stack_count: 2, ..example_config() };
    let world = bootstrap(&config).unwrap();
    assert_eq!(world.len(), 3 + 2 * 10);
    // x = i * 2r - N * r, y = j * 2r + r + 11
    assert_eq!(world.get(3).body.position, Point { x: -1000, y: 11_500 });
    assert_eq!(world.get(12).body.position, Point { x: -1000, y: 20_500 });
    assert_eq!(world.get(13).body.position, Point { x: 0, y: 11_500 });
    assert_eq!(world.get(22).body.position, Point { x: 0, y: 20_500 });
}

#[test]
fn bootstrap_twice_gives_same_scene() {
    let config = SceneConfig::default();
    let a = bootstrap(&config).unwrap().bodies();
    let b = bootstrap(&config).unwrap().bodies();
    assert_eq!(a, b);
}

#[test]
fn zero_stack_count_is_rejected() {
    let config = SceneConfig { stack_count: 0, ..example_config() };
    assert_eq!(bootstrap(&config).err(), Some(ConfigError::EmptyGrid));
}

#[test]
fn zero_or_negative_radius_is_rejected() {
    let config = SceneConfig { body_radius: 0, ..example_config() };
    assert_eq!(bootstrap(&config).err(), Some(ConfigError::DegenerateRadius));
    let config = SceneConfig { body_radius: -500, ..example_config() };
    assert_eq!(bootstrap(&config).err(), Some(ConfigError::DegenerateRadius));
}

#[test]
fn non_positive_ground_is_rejected() {
    let config = SceneConfig { ground_size: 0, ..example_config() };
    assert_eq!(bootstrap(&config).err(), Some(ConfigError::DegenerateGround));
}

#[test]
fn oversized_configuration_is_rejected() {
    let config = SceneConfig { stack_count: MAX_STACK_COUNT + 1, ..example_config() };
    assert_eq!(bootstrap(&config).err(), Some(ConfigError::OutOfRange));
    let config = SceneConfig { body_radius: i64::MAX, ..example_config() };
    assert_eq!(bootstrap(&config).err(), Some(ConfigError::OutOfRange));
    let config = SceneConfig { stack_count: 2, body_radius: MAX_GRID_SPAN / 2 + 1, ..example_config() };
    assert_eq!(bootstrap(&config).err(), Some(ConfigError::OutOfRange));
    let config = SceneConfig { ground_size: MAX_GROUND_SIZE + 1, ..example_config() };
    assert_eq!(bootstrap(&config).err(), Some(ConfigError::OutOfRange));
}

#[test]
fn large_configuration_is_accepted() {
    let config = SceneConfig { stack_count: 1001, ..example_config() };
    assert_eq!(body_count(&config), 3 + 5 * 1001 * 1001);
    let config = SceneConfig { stack_count: 2, body_radius: MAX_GRID_SPAN / 2, ..example_config() };
    let world = bootstrap(&config).unwrap();
    assert_eq!(world.len(), 23);
    let r = MAX_GRID_SPAN / 2;
    assert_eq!(world.get(22).body.position, Point { x: 0, y: 9 * 2 * r + r + 11_000 });
    let config = SceneConfig { ground_size: MAX_GROUND_SIZE, ..example_config() };
    let world = bootstrap(&config).unwrap();
    assert_eq!(world.get(1).body.position, Point { x: MAX_GROUND_SIZE, y: 2 * MAX_GROUND_SIZE });
}

fn body_count(config: &SceneConfig) -> usize {
    bootstrap(config).unwrap().len()
}

#[test]
fn body_size_matches_stack_limit() {
    assert_eq!(std::mem::size_of::<Body>(), 48);
}
