//! A single on-screen entity: its state, its per-frame update and where it
//! is drawn.
use vstd::prelude::*;
use crate::config::Config;
use crate::fixed::{floor_div, DIV_LIMIT, SCALE};
use crate::geometry::{wrap, wrap_coord, Point2D};
use crate::input::InputState;

verus! {

/// The unit vector of an entity's heading, in fixed-point units: the cosine
/// and the sine of its rotation.
#[derive(Clone, Copy, Debug, PartialEq, Eq, Structural)]
pub struct Heading {
    pub cos: i32,
    pub sin: i32,
}

/// A fill colour: red, green, blue and opacity, each out of 255.
#[derive(Clone, Copy, Debug, PartialEq, Eq, Structural)]
pub struct Color {
    pub r: u8,
    pub g: u8,
    pub b: u8,
    pub a: u8,
}

/// A controlled square: where it is, which way it faces (in 2^-32 of a full
/// turn, accumulated without folding into one turn), and its fill colour.
#[derive(Clone, Copy, Debug, PartialEq, Eq, Structural)]
pub struct Player {
    pub position: Point2D,
    pub rotation: i64,
    pub color: Color,
}

/// Where and how an entity is drawn, in millionths of a pixel: the centre of
/// its square, its rotation, and half the side of the square.
#[derive(Clone, Copy, Debug, PartialEq, Eq, Structural)]
pub struct Placement {
    pub x: i128,
    pub y: i128,
    pub rotation: i64,
    pub half_size: i128,
}

/// `factor * dt * rate` with all three in fixed-point units, rounded down to
/// fixed-point units.
pub open spec fn scaled(factor: int, dt: int, rate: int) -> int {
    (factor * dt * rate) / (SCALE * SCALE)
}

/// The rotation after one frame of `dt`: turned by the reading of axis 0 on
/// device 0 if there is one, and kept otherwise.
pub open spec fn turned(rotation: i64, dt: i64, axes: Map<(u32, u8), i32>, cfg: Config) -> int {
    if axes.contains_key((0, 0)) {
        rotation + scaled(axes[(0, 0)] as int, dt as int, cfg.rotation_speed as int)
    } else {
        rotation as int
    }
}

/// The turned rotation fits in the `i64` that stores it.
pub open spec fn turn_fits(rotation: i64, dt: i64, axes: Map<(u32, u8), i32>, cfg: Config) -> bool {
    i64::MIN <= turned(rotation, dt, axes, cfg) <= i64::MAX
}

/// The position after moving for `dt` along `h` and wrapping onto the torus.
pub open spec fn moved(p: Point2D, h: Heading, dt: i64, cfg: Config) -> Point2D {
    Point2D {
        x: wrap(p.x + scaled(h.cos as int, dt as int, cfg.speed as int), cfg.wrap_bound as int)
            as i64,
        y: wrap(p.y + scaled(h.sin as int, dt as int, cfg.speed as int), cfg.wrap_bound as int)
            as i64,
    }
}

/// One frame of an entity: steer, then move along `h`, the heading of the
/// steered rotation. The colour is kept.
pub open spec fn player_step(
    p: Player,
    dt: i64,
    axes: Map<(u32, u8), i32>,
    h: Heading,
    cfg: Config,
) -> Player {
    Player {
        position: moved(p.position, h, dt, cfg),
        rotation: turned(p.rotation, dt, axes, cfg) as i64,
        color: p.color,
    }
}

/// The smaller side of a viewport.
pub open spec fn viewport_scale(width: u32, height: u32) -> int {
    if width <= height { width as int } else { height as int }
}

/// Where `p` is drawn in a viewport of `width` by `height` pixels: the
/// viewport centre offset by the position times the smaller side.
pub open spec fn placement_of(p: Player, width: u32, height: u32, cfg: Config) -> Placement {
    let scale = viewport_scale(width, height);
    Placement {
        x: (width * SCALE / 2 + p.position.x * scale) as i128,
        y: (height * SCALE / 2 + p.position.y * scale) as i128,
        rotation: p.rotation,
        half_size: (scale * cfg.entity_radius) as i128,
    }
}

/// `factor * dt * rate` in fixed point, rounded down.
fn scaled_product(factor: i32, dt: i64, rate: u32) -> (r: i128)
    ensures
        r == scaled(factor as int, dt as int, rate as int),
        -0x80_0000_0000_0000_0000_0000 <= r <= 0x80_0000_0000_0000_0000_0000,
{
    let f: i128 = factor as i128;
    let t: i128 = dt as i128;
    let q: i128 = rate as i128;
    assert(-0x4000_0000_0000_0000_0000_0000 <= f * t <= 0x4000_0000_0000_0000_0000_0000)
        by (nonlinear_arith)
        requires
            -0x8000_0000 <= f <= 0x8000_0000,
            -0x8000_0000_0000_0000 <= t <= 0x8000_0000_0000_0000,
    ;
    assert(-DIV_LIMIT <= f * t * q <= DIV_LIMIT) by (nonlinear_arith)
        requires
            -0x4000_0000_0000_0000_0000_0000 <= f * t <= 0x4000_0000_0000_0000_0000_0000,
            0 <= q <= 0x1_0000_0000,
    ;
    let r = floor_div(f * t * q, SCALE * SCALE);
    proof {
        vstd::arithmetic::div_mod::lemma_fundamental_div_mod(f * t * q, SCALE * SCALE);
        vstd::arithmetic::div_mod::lemma_mod_bound(f * t * q, SCALE * SCALE);
        assert(-0x80_0000_0000_0000_0000_0000 <= r <= 0x80_0000_0000_0000_0000_0000)
            by (nonlinear_arith)
            requires
                f * t * q == (SCALE * SCALE) * r + (f * t * q) % (SCALE * SCALE),
                0 <= (f * t * q) % (SCALE * SCALE) < SCALE * SCALE,
                -DIV_LIMIT <= f * t * q <= DIV_LIMIT,
                SCALE == 1_000_000,
        ;
    }
    r
}

impl Player {
    /// The rotation this entity will have after a frame of `dt` under
    /// `input`, or `None` where it would not fit in `i64`.
    pub fn steered_rotation(&self, dt: i64, input: &InputState, cfg: &Config) -> (r: Option<i64>)
        ensures
            r == (if turn_fits(self.rotation, dt, input@, *cfg) {
                Some(turned(self.rotation, dt, input@, *cfg) as i64)
            } else {
                None::<i64>
            }),
    {
        match input.axis(0, 0) {
            Some(turn) => {
                let t: i128 = self.rotation as i128 + scaled_product(turn, dt, cfg.rotation_speed);
                if i64::MIN as i128 <= t && t <= i64::MAX as i128 {
                    Some(t as i64)
                } else {
                    None
                }
            },
            None => Some(self.rotation),
        }
    }

    /// Advances this entity by one frame of `dt`: its rotation turns by the
    /// reading of axis 0 on device 0 (if any), then it moves along `heading`,
    /// which the caller computes from the turned rotation, and each coordinate
    /// is wrapped into `[-wrap_bound, wrap_bound)`.
    pub fn update(&mut self, dt: i64, input: &InputState, heading: Heading, cfg: &Config)
        requires
            cfg.wf(),
            turn_fits(old(self).rotation, dt, input@, *cfg),
        ensures
            *final(self) == player_step(*old(self), dt, input@, heading, *cfg),
            -cfg.wrap_bound <= final(self).position.x < cfg.wrap_bound,
            -cfg.wrap_bound <= final(self).position.y < cfg.wrap_bound,
    {
        let rotation = match self.steered_rotation(dt, input, cfg) {
            Some(r) => r,
            None => self.rotation,
        };
        let dx = scaled_product(heading.cos, dt, cfg.speed);
        let dy = scaled_product(heading.sin, dt, cfg.speed);
        let x = wrap_coord(self.position.x as i128 + dx, cfg.wrap_bound);
        let y = wrap_coord(self.position.y as i128 + dy, cfg.wrap_bound);
        self.rotation = rotation;
        self.position = Point2D { x, y };
    }

    /// Where this entity is drawn in a viewport of `width` by `height` pixels.
    pub fn placement(&self, width: u32, height: u32, cfg: &Config) -> (r: Placement)
        ensures
            r == placement_of(*self, width, height, *cfg),
    {
        let scale: i128 = if width <= height { width as i128 } else { height as i128 };
        let x: i128 = self.position.x as i128;
        let y: i128 = self.position.y as i128;
        assert(-0x8000_0000_0000_0000_0000_0000 <= x * scale <= 0x8000_0000_0000_0000_0000_0000)
            by (nonlinear_arith)
            requires
                -0x8000_0000_0000_0000 <= x <= 0x8000_0000_0000_0000,
                0 <= scale <= 0x1_0000_0000,
        ;
        assert(-0x8000_0000_0000_0000_0000_0000 <= y * scale <= 0x8000_0000_0000_0000_0000_0000)
            by (nonlinear_arith)
            requires
                -0x8000_0000_0000_0000 <= y <= 0x8000_0000_0000_0000,
                0 <= scale <= 0x1_0000_0000,
        ;
        assert(0 <= scale * cfg.entity_radius <= 0x1_0000_0000_0000_0000) by (nonlinear_arith)
            requires
                0 <= scale <= 0x1_0000_0000,
                0 <= cfg.entity_radius <= 0x1_0000_0000,
        ;
        Placement {
            x: width as i128 * SCALE / 2 + x * scale,
            y: height as i128 * SCALE / 2 + y * scale,
            rotation: self.rotation,
            half_size: scale * cfg.entity_radius as i128,
        }
    }
}

} // verus!
