//! The world: an ordered list of entities and the controller input that
//! steers them, advanced frame by frame.
use vstd::prelude::*;
use crate::config::Config;
use crate::geometry::wrap;
use crate::input::InputState;
use crate::player::{placement_of, player_step, turn_fits, turned, Heading, Placement, Player};

verus! {

/// Every entity after one frame of `dt`, entity `i` moving along `hs[i]`.
pub open spec fn step_all(
    ps: Seq<Player>,
    dt: i64,
    axes: Map<(u32, u8), i32>,
    hs: Seq<Heading>,
    cfg: Config,
) -> Seq<Player> {
    Seq::new(ps.len(), |i: int| player_step(ps[i], dt, axes, hs[i], cfg))
}

/// What the world reacts to: a frame of `dt` (with the heading of each entity's
/// steered rotation), or a new reading of a controller axis.
pub ghost enum WorldEvent {
    Tick { dt: i64, headings: Seq<Heading> },
    Axis { device: u32, axis: u8, value: i32 },
}

/// The entities and the axis readings after the events `evs`, in order.
pub open spec fn run(
    ps: Seq<Player>,
    axes: Map<(u32, u8), i32>,
    evs: Seq<WorldEvent>,
    cfg: Config,
) -> (Seq<Player>, Map<(u32, u8), i32>)
    decreases evs.len(),
{
    if evs.len() == 0 {
        (ps, axes)
    } else {
        let (ps0, axes0) = run(ps, axes, evs.drop_last(), cfg);
        match evs.last() {
            WorldEvent::Tick { dt, headings } => (step_all(ps0, dt, axes0, headings, cfg), axes0),
            WorldEvent::Axis { device, axis, value } => (ps0, axes0.insert((device, axis), value)),
        }
    }
}

/// The world: the entities, in drawing and update order, and the input.
pub struct App {
    pub players: Vec<Player>,
    pub input: InputState,
}

impl App {
    /// A world holding `players` and no axis reading.
    pub fn new(players: Vec<Player>) -> (a: App)
        ensures
            a.players@ == players@,
            a.input@ == Map::<(u32, u8), i32>::empty(),
    {
        App { players, input: InputState::new() }
    }

    /// Records a controller axis reading; the entities are untouched.
    pub fn set_axis(&mut self, device: u32, axis: u8, value: i32)
        ensures
            final(self).input@ == old(self).input@.insert((device, axis), value),
            final(self).players@ == old(self).players@,
    {
        self.input.set_axis(device, axis, value);
    }

    /// The rotation each entity will have after a frame of `dt`, in order
    /// (the caller turns these into the headings that `update` takes), or
    /// `None` where some entity's rotation would leave `i64`.
    pub fn steered_rotations(&self, dt: i64, cfg: &Config) -> (r: Option<Vec<i64>>)
        ensures
            match r {
                Some(v) => v@.len() == self.players@.len() && forall|i: int|
                    0 <= i < v@.len() ==> v@[i] == turned(
                        #[trigger] self.players@[i].rotation,
                        dt,
                        self.input@,
                        *cfg,
                    ),
                None => exists|i: int|
                    0 <= i < self.players@.len() && !turn_fits(
                        #[trigger] self.players@[i].rotation,
                        dt,
                        self.input@,
                        *cfg,
                    ),
            },
            r is Some <==> forall|i: int|
                0 <= i < self.players@.len() ==> turn_fits(
                    #[trigger] self.players@[i].rotation,
                    dt,
                    self.input@,
                    *cfg,
                ),
    {
        let mut r: Vec<i64> = Vec::new();
        let mut i: usize = 0;
        while i < self.players.len()
            invariant
                i <= self.players@.len(),
                r@.len() == i,
                forall|j: int|
                    0 <= j < i ==> turn_fits(
                        #[trigger] self.players@[j].rotation,
                        dt,
                        self.input@,
                        *cfg,
                    ) && r@[j] == turned(self.players@[j].rotation, dt, self.input@, *cfg),
            decreases self.players@.len() - i,
        {
            match self.players[i].steered_rotation(dt, &self.input, cfg) {
                Some(t) => r.push(t),
                None => {
                    return None;
                },
            }
            i += 1;
        }
        Some(r)
    }

    /// Advances every entity by one frame of `dt`, entity `i` moving along
    /// `headings[i]`. The input is untouched.
    pub fn update(&mut self, dt: i64, headings: &Vec<Heading>, cfg: &Config)
        requires
            cfg.wf(),
            headings@.len() == old(self).players@.len(),
            forall|i: int|
                0 <= i < old(self).players@.len() ==> turn_fits(
                    #[trigger] old(self).players@[i].rotation,
                    dt,
                    old(self).input@,
                    *cfg,
                ),
        ensures
            final(self).players@ == step_all(
                old(self).players@,
                dt,
                old(self).input@,
                headings@,
                *cfg,
            ),
            final(self).input@ == old(self).input@,
            forall|i: int|
                0 <= i < final(self).players@.len() ==> -cfg.wrap_bound
                    <= #[trigger] final(self).players@[i].position.x < cfg.wrap_bound
                    && -cfg.wrap_bound <= final(self).players@[i].position.y < cfg.wrap_bound,
    {
        let ghost ps0 = self.players@;
        let ghost axes0 = self.input@;
        let mut i: usize = 0;
        while i < self.players.len()
            invariant
                cfg.wf(),
                headings@.len() == ps0.len(),
                self.input@ == axes0,
                forall|j: int|
                    0 <= j < ps0.len() ==> turn_fits(#[trigger] ps0[j].rotation, dt, axes0, *cfg),
                self.players@.len() == ps0.len(),
                i <= ps0.len(),
                forall|j: int|
                    0 <= j < i ==> #[trigger] self.players@[j] == player_step(
                        ps0[j],
                        dt,
                        self.input@,
                        headings@[j],
                        *cfg,
                    ),
                forall|j: int|
                    0 <= j < i ==> -cfg.wrap_bound <= #[trigger] self.players@[j].position.x
                        < cfg.wrap_bound && -cfg.wrap_bound <= self.players@[j].position.y
                        < cfg.wrap_bound,
                forall|j: int| i <= j < ps0.len() ==> #[trigger] self.players@[j] == ps0[j],
            decreases ps0.len() - i,
        {
            let mut p = self.players[i];
            p.update(dt, &self.input, headings[i], cfg);
            self.players.set(i, p);
            i += 1;
        }
        assert(self.players@ =~= step_all(ps0, dt, self.input@, headings@, *cfg));
    }

    /// Where each entity is drawn in a viewport of `width` by `height`
    /// pixels, in order.
    pub fn placements(&self, width: u32, height: u32, cfg: &Config) -> (r: Vec<Placement>)
        ensures
            r@.len() == self.players@.len(),
            forall|i: int|
                0 <= i < r@.len() ==> r@[i] == placement_of(
                    #[trigger] self.players@[i],
                    width,
                    height,
                    *cfg,
                ),
    {
        let mut r: Vec<Placement> = Vec::new();
        let mut i: usize = 0;
        while i < self.players.len()
            invariant
                i <= self.players@.len(),
                r@.len() == i,
                forall|j: int|
                    0 <= j < i ==> r@[j] == placement_of(
                        #[trigger] self.players@[j],
                        width,
                        height,
                        *cfg,
                    ),
            decreases self.players@.len() - i,
        {
            r.push(self.players[i].placement(width, height, cfg));
            i += 1;
        }
        r
    }
}

} // verus!
