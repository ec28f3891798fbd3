//! Facts about the simulation that hold for every input, proved over the
//! spec functions that the executable contracts use.
use vstd::prelude::*;
use crate::config::Config;
use crate::geometry::lemma_wrap_in_range;
use crate::player::{player_step, scaled, turn_fits, Heading, Player};
use crate::world::{run, step_all, WorldEvent};

verus! {

/// Whatever the frame time, rotation, heading and input, an entity ends a
/// frame with both coordinates in `[-wrap_bound, wrap_bound)`.
pub proof fn lemma_step_stays_on_torus(
    p: Player,
    dt: i64,
    axes: Map<(u32, u8), i32>,
    h: Heading,
    cfg: Config,
)
    requires
        cfg.wf(),
    ensures
        -cfg.wrap_bound <= player_step(p, dt, axes, h, cfg).position.x < cfg.wrap_bound,
        -cfg.wrap_bound <= player_step(p, dt, axes, h, cfg).position.y < cfg.wrap_bound,
{
    let pad = cfg.wrap_bound as int;
    let s = crate::player::scaled(h.cos as int, dt as int, cfg.speed as int);
    let t = crate::player::scaled(h.sin as int, dt as int, cfg.speed as int);
    lemma_wrap_in_range(p.position.x + s, pad);
    lemma_wrap_in_range(p.position.y + t, pad);
}

/// An entity's next state depends on its own state, its own heading (the
/// cosine and sine of its own steered rotation) and the input alone: whatever
/// the other entities are, and whatever headings they are given, it comes out
/// the same.
pub proof fn lemma_entities_independent(
    ps1: Seq<Player>,
    hs1: Seq<Heading>,
    ps2: Seq<Player>,
    hs2: Seq<Heading>,
    i: int,
    dt: i64,
    axes: Map<(u32, u8), i32>,
    cfg: Config,
)
    requires
        0 <= i < ps1.len(),
        0 <= i < ps2.len(),
        hs1.len() == ps1.len(),
        hs2.len() == ps2.len(),
        ps1[i] == ps2[i],
        hs1[i] == hs2[i],
    ensures
        step_all(ps1, dt, axes, hs1, cfg)[i] == step_all(ps2, dt, axes, hs2, cfg)[i],
        step_all(ps1, dt, axes, hs1, cfg)[i] == player_step(ps1[i], dt, axes, hs1[i], cfg),
{
}

/// Events never touch axis 0 of device 0 (and no reading of it is held at the start).
pub open spec fn leaves_steering_axis(axes: Map<(u32, u8), i32>, evs: Seq<WorldEvent>) -> bool {
    &&& !axes.contains_key((0, 0))
    &&& forall|k: int|
        0 <= k < evs.len() ==> match #[trigger] evs[k] {
            WorldEvent::Axis { device, axis, value } => !(device == 0 && axis == 0),
            WorldEvent::Tick { .. } => true,
        }
}

/// Without a reading of axis 0 on device 0, no number of frames changes any
/// entity's rotation; only positions advance.
pub proof fn lemma_no_input_keeps_rotation(
    ps: Seq<Player>,
    axes: Map<(u32, u8), i32>,
    evs: Seq<WorldEvent>,
    cfg: Config,
)
    requires
        leaves_steering_axis(axes, evs),
    ensures
        run(ps, axes, evs, cfg).0.len() == ps.len(),
        !run(ps, axes, evs, cfg).1.contains_key((0, 0)),
        forall|i: int|
            0 <= i < ps.len() ==> (#[trigger] run(ps, axes, evs, cfg).0[i]).rotation
                == ps[i].rotation,
    decreases evs.len(),
{
    if evs.len() > 0 {
        let pre = evs.drop_last();
        assert forall|k: int| 0 <= k < pre.len() implies match #[trigger] pre[k] {
            WorldEvent::Axis { device, axis, value } => !(device == 0 && axis == 0),
            WorldEvent::Tick { .. } => true,
        } by {
            assert(pre[k] == evs[k]);
        }
        lemma_no_input_keeps_rotation(ps, axes, pre, cfg);
        assert(evs.last() == evs[evs.len() - 1]);
    }
}

/// Setting an axis overwrites: the last value set is the one held, setting
/// the same value twice is the same as setting it once, and only that one
/// entry is added.
pub proof fn lemma_set_axis_last_write_wins(
    axes: Map<(u32, u8), i32>,
    device: u32,
    axis: u8,
    earlier: i32,
    value: i32,
)
    ensures
        axes.insert((device, axis), earlier).insert((device, axis), value) == axes.insert(
            (device, axis),
            value,
        ),
        axes.insert((device, axis), value).insert((device, axis), value) == axes.insert(
            (device, axis),
            value,
        ),
        axes.insert((device, axis), value)[(device, axis)] == value,
        axes.insert((device, axis), value).dom() == axes.dom().insert((device, axis)),
        Map::<(u32, u8), i32>::empty().insert((device, axis), value).insert((device, axis), value).dom()
            == Set::<(u32, u8)>::empty().insert((device, axis)),
{
    assert(axes.insert((device, axis), earlier).insert((device, axis), value) =~= axes.insert(
        (device, axis),
        value,
    ));
    assert(axes.insert((device, axis), value).insert((device, axis), value) =~= axes.insert(
        (device, axis),
        value,
    ));
    assert(axes.insert((device, axis), value).dom() =~= axes.dom().insert((device, axis)));
    assert(Map::<(u32, u8), i32>::empty().insert((device, axis), value).insert((device, axis), value).dom()
        =~= Set::<(u32, u8)>::empty().insert((device, axis)));
}

/// Of two readings of the steering axis, only the later one turns the
/// entities: each rotation grows by that reading's turn, with nothing left of
/// the earlier one.
pub proof fn lemma_last_reading_steers(
    ps: Seq<Player>,
    hs: Seq<Heading>,
    axes: Map<(u32, u8), i32>,
    first: i32,
    last: i32,
    dt: i64,
    cfg: Config,
)
    requires
        forall|i: int|
            0 <= i < ps.len() ==> turn_fits(
                #[trigger] ps[i].rotation,
                dt,
                axes.insert((0, 0), first).insert((0, 0), last),
                cfg,
            ),
    ensures
        forall|i: int|
            0 <= i < ps.len() ==> (#[trigger] step_all(
                ps,
                dt,
                axes.insert((0, 0), first).insert((0, 0), last),
                hs,
                cfg,
            )[i]).rotation == ps[i].rotation + scaled(last as int, dt as int, cfg.rotation_speed as int),
{
}

/// Two worlds that start alike and see the same frames and axis readings end
/// alike: nothing but those inputs decides the outcome.
pub proof fn lemma_deterministic(
    ps1: Seq<Player>,
    axes1: Map<(u32, u8), i32>,
    ps2: Seq<Player>,
    axes2: Map<(u32, u8), i32>,
    evs: Seq<WorldEvent>,
    cfg: Config,
)
    requires
        ps1 == ps2,
        axes1 == axes2,
    ensures
        run(ps1, axes1, evs, cfg) == run(ps2, axes2, evs, cfg),
{
}

} // verus!
