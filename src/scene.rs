//! Startup configuration and the deterministic initial scene.
use vstd::prelude::*;
use vstd::arithmetic::div_mod::lemma_fundamental_div_mod_converse;
use crate::diagnostics::DEFAULT_HISTORY_SIZE;
use crate::geometry::{
    Body, BodyKind, Point, Rotation, World, UNIT, dynamic_cuboid, make_dynamic_cuboid, make_static_cuboid,
    static_cuboid,
};

verus! {

/// Half-thickness of the ground and wall slabs: 1.2 units.
pub const SLAB_HALF_THICKNESS: i64 = 1200;

/// Height above the origin at which the first grid row is offset: 11 units.
pub const GRID_BASE_HEIGHT: i64 = 11000;

/// Largest stack count whose scene, `3 + 5 * N * N` bodies of 48 bytes each,
/// fits in a single allocation of at most `isize::MAX` bytes.
pub const MAX_STACK_COUNT: u64 = 196037539;

/// Largest ground size whose walls, centred at height `2 * ground_size`, still
/// have an `i64` coordinate: `i64::MAX / 2`.
pub const MAX_GROUND_SIZE: i64 = 4611686018427387903;

/// Largest `stack_count * body_radius` for which the top grid row, at height
/// below `10 * stack_count * body_radius + GRID_BASE_HEIGHT`, still has an `i64`
/// coordinate: `(i64::MAX - GRID_BASE_HEIGHT) / 10`.
pub const MAX_GRID_SPAN: i64 = 922337203685476480;

/// Number of grid rows per grid column.
pub const ROWS_PER_COLUMN: u64 = 5;

/// Startup options of a scene.
#[derive(Clone, Copy, Debug)]
pub struct SceneConfig {
    /// Half-length of the ground slab, in thousandths.
    pub ground_size: i64,
    /// Number of grid columns; the grid holds `5 * stack_count` rows.
    pub stack_count: u64,
    /// Half-extent of each grid cuboid, in thousandths.
    pub body_radius: i64,
    /// Where bodies requested at runtime appear.
    pub spawn_point: Point,
    /// Capacity of the diagnostic history.
    pub metric_history_size: usize,
    pub diagnostics_enabled: bool,
}

/// Why a configuration cannot produce a scene.
#[derive(Clone, Copy, Debug, PartialEq, Eq, Structural)]
pub enum ConfigError {
    /// `stack_count` is zero: the grid would be empty.
    EmptyGrid,
    /// `body_radius` is zero or negative.
    DegenerateRadius,
    /// `ground_size` is zero or negative.
    DegenerateGround,
    /// The scene's bodies or coordinates cannot be represented: the stack count
    /// exceeds `MAX_STACK_COUNT`, the ground size `MAX_GROUND_SIZE`, or
    /// `stack_count * body_radius` exceeds `MAX_GRID_SPAN`.
    OutOfRange,
}

impl Default for SceneConfig {
    fn default() -> (c: SceneConfig)
        ensures
            c == default_config(),
    {
        SceneConfig {
            ground_size: 10 * UNIT,
            stack_count: 5,
            body_radius: UNIT / 2,
            spawn_point: Point { x: 0, y: 30 * UNIT },
            metric_history_size: DEFAULT_HISTORY_SIZE,
            diagnostics_enabled: true,
        }
    }
}

pub open spec fn default_config() -> SceneConfig {
    SceneConfig {
        ground_size: 10000,
        stack_count: 5,
        body_radius: 500,
        spawn_point: Point { x: 0, y: 30000 },
        metric_history_size: 10,
        diagnostics_enabled: true,
    }
}

/// The first problem found in `c`, or `None` for a usable configuration.
pub open spec fn config_error(c: SceneConfig) -> Option<ConfigError> {
    if c.stack_count == 0 {
        Some(ConfigError::EmptyGrid)
    } else if c.body_radius <= 0 {
        Some(ConfigError::DegenerateRadius)
    } else if c.ground_size <= 0 {
        Some(ConfigError::DegenerateGround)
    } else if c.stack_count > MAX_STACK_COUNT || c.ground_size > MAX_GROUND_SIZE || c.stack_count
        * c.body_radius > MAX_GRID_SPAN {
        Some(ConfigError::OutOfRange)
    } else {
        None
    }
}

/// Rows of the grid: five per column.
pub open spec fn grid_rows(c: SceneConfig) -> int {
    5 * c.stack_count
}

/// The static enclosure: a ground slab at the origin and two quarter-turned walls.
pub open spec fn enclosure(c: SceneConfig) -> Seq<Body> {
    let s = c.ground_size as int;
    seq![
        static_cuboid(Point { x: 0, y: 0 }, Rotation::Upright, s, 1200),
        static_cuboid(Point { x: s as i64, y: (2 * s) as i64 }, Rotation::QuarterTurn, 2 * s, 1200),
        static_cuboid(Point { x: (-s) as i64, y: (2 * s) as i64 }, Rotation::QuarterTurn, 2 * s, 1200),
    ]
}

/// Centre of grid cell (i, j): x = i*2r - N*r, y = j*2r + r + base.
pub open spec fn grid_position(c: SceneConfig, i: int, j: int) -> Point {
    let r = c.body_radius as int;
    Point {
        x: (i * (2 * r) - c.stack_count * r) as i64,
        y: (j * (2 * r) + r + GRID_BASE_HEIGHT) as i64,
    }
}

pub open spec fn grid_body(c: SceneConfig, i: int, j: int) -> Body {
    dynamic_cuboid(grid_position(c, i, j), c.body_radius as int, c.body_radius as int)
}

/// The grid, column `i` outer and row `j` inner.
pub open spec fn grid(c: SceneConfig) -> Seq<Body> {
    Seq::new(
        (c.stack_count * grid_rows(c)) as nat,
        |k: int| grid_body(c, k / grid_rows(c), k % grid_rows(c)),
    )
}

/// Every body of the initial scene, in creation order.
pub open spec fn initial_scene(c: SceneConfig) -> Seq<Body> {
    enclosure(c) + grid(c)
}

/// Builds the initial world: the static enclosure, then the dynamic grid.
/// Fails, creating nothing, on a degenerate or oversized configuration.
pub fn bootstrap(c: &SceneConfig) -> (r: Result<World, ConfigError>)
    ensures
        match r {
            Ok(w) => config_error(*c) is None && w@ == initial_scene(*c),
            Err(e) => config_error(*c) == Some(e),
        },
{
    if c.stack_count == 0 {
        return Err(ConfigError::EmptyGrid);
    }
    if c.body_radius <= 0 {
        return Err(ConfigError::DegenerateRadius);
    }
    if c.ground_size <= 0 {
        return Err(ConfigError::DegenerateGround);
    }
    if c.stack_count > MAX_STACK_COUNT || c.ground_size > MAX_GROUND_SIZE {
        return Err(ConfigError::OutOfRange);
    }
    assert(c.stack_count * c.body_radius <= 196037539 * 0x7fff_ffff_ffff_ffff) by (nonlinear_arith)
        requires
            c.stack_count <= 196037539,
            0 < c.body_radius <= 0x7fff_ffff_ffff_ffff,
    ;
    let span = (c.stack_count as i128) * (c.body_radius as i128);
    if span > MAX_GRID_SPAN as i128 {
        return Err(ConfigError::OutOfRange);
    }
    let s = c.ground_size;
    let mut world = World::new();
    let ground = make_static_cuboid(Point { x: 0, y: 0 }, Rotation::Upright, s, SLAB_HALF_THICKNESS);
    world.register_body(ground.body, ground.collider);
    let right = make_static_cuboid(Point { x: s, y: 2 * s }, Rotation::QuarterTurn, 2 * s, SLAB_HALF_THICKNESS);
    world.register_body(right.body, right.collider);
    let left = make_static_cuboid(Point { x: -s, y: 2 * s }, Rotation::QuarterTurn, 2 * s, SLAB_HALF_THICKNESS);
    world.register_body(left.body, left.collider);
    assert(world@ =~= enclosure(*c));

    let n = c.stack_count as i64;
    let rad = c.body_radius;
    let rows = c.stack_count * ROWS_PER_COLUMN;
    let ghost g = grid(*c);
    let mut i: u64 = 0;
    while i < c.stack_count
        invariant
            config_error(*c) is None,
            n == c.stack_count,
            rad == c.body_radius,
            n * rad <= MAX_GRID_SPAN,
            rows == grid_rows(*c),
            g == grid(*c),
            0 <= i <= c.stack_count,
            world@ == enclosure(*c) + g.subrange(0, i * rows),
        decreases c.stack_count - i,
    {
        let mut j: u64 = 0;
        while j < rows
            invariant
                config_error(*c) is None,
                n == c.stack_count,
                rad == c.body_radius,
                n * rad <= MAX_GRID_SPAN,
                rows == grid_rows(*c),
                g == grid(*c),
                0 <= i < c.stack_count,
                0 <= j <= rows,
                world@ == enclosure(*c) + g.subrange(0, i * rows + j),
            decreases rows - j,
        {
            proof {
                assert(0 <= i * rows + j < c.stack_count * rows) by (nonlinear_arith)
                    requires i < c.stack_count, j < rows;
                assert(0 <= i * (2 * rad) <= 2 * (n * rad)) by (nonlinear_arith)
                    requires 0 <= i < n, 0 < rad;
                assert(0 <= j * (2 * rad) <= 10 * (n * rad) - 2 * rad) by (nonlinear_arith)
                    requires 0 <= j < 5 * n, 0 < rad;
                assert(0 < n * rad <= 922337203685476480) by (nonlinear_arith)
                    requires 0 < n, 0 < rad, n * rad <= 922337203685476480;
                lemma_fundamental_div_mod_converse(i * rows + j, rows as int, i as int, j as int);
            }
            let x = (i as i64) * (2 * rad) - n * rad;
            let y = (j as i64) * (2 * rad) + rad + GRID_BASE_HEIGHT;
            let cube = make_dynamic_cuboid(Point { x, y }, rad, rad);
            world.register_body(cube.body, cube.collider);
            assert(g.subrange(0, i * rows + j + 1) =~= g.subrange(0, i * rows + j).push(g[i * rows + j]));
            assert(world@ =~= enclosure(*c) + g.subrange(0, i * rows + j + 1));
            j = j + 1;
        }
        assert((i + 1) * rows == i * rows + rows) by (nonlinear_arith);
        i = i + 1;
    }
    assert(g.subrange(0, i * rows) =~= g);
    Ok(world)
}

/// Determinism: bootstrapping equal configurations yields equal scenes, body
/// for body and in the same order.
pub proof fn lemma_bootstrap_deterministic(a: SceneConfig, b: SceneConfig)
    requires
        a == b,
    ensures
        initial_scene(a) == initial_scene(b),
{
}

/// Layout of the initial scene: exactly three static bodies come first, then
/// exactly `N * 5N` dynamic bodies, the body of grid cell (i, j) standing at
/// index `3 + i * 5N + j` with the closed-form position of `grid_position`.
pub proof fn lemma_initial_scene_layout(c: SceneConfig)
    requires
        config_error(c) is None,
    ensures
        initial_scene(c).len() == 3 + c.stack_count * grid_rows(c),
        forall|k: int| 0 <= k < 3 ==> (#[trigger] initial_scene(c)[k]).body.kind == BodyKind::Static,
        forall|k: int|
            3 <= k < initial_scene(c).len() ==> (#[trigger] initial_scene(c)[k]).body.kind
                == BodyKind::Dynamic,
        forall|i: int, j: int|
            0 <= i < c.stack_count && 0 <= j < grid_rows(c) ==> initial_scene(c)[3 + i
                * grid_rows(c) + j] == #[trigger] grid_body(c, i, j),
{
    let rows = grid_rows(c);
    assert forall|i: int, j: int| 0 <= i < c.stack_count && 0 <= j < rows implies initial_scene(c)[3
        + i * rows + j] == #[trigger] grid_body(c, i, j) by {
        assert(0 <= i * rows + j < c.stack_count * rows) by (nonlinear_arith)
            requires 0 <= i < c.stack_count, 0 <= j < rows;
        lemma_fundamental_div_mod_converse(i * rows + j, rows, i, j);
    }
}

} // verus!
