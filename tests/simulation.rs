use rustgametest::config::{Config, DEFAULT_ROTATION_SPEED};
use rustgametest::geometry::Point2D;
use rustgametest::input::InputState;
use rustgametest::player::{Color, Heading, Placement, Player};
use rustgametest::world::App;

const RED: Color = Color { r: 255, g: 0, b: 0, a: 255 };
const BLUE: Color = Color { r: 0, g: 0, b: 255, a: 255 };

fn player_at(x: i64, y: i64, rotation: i64) -> Player {
    Player { position: Point2D { x, y }, rotation, color: RED }
}

fn heading_of(rotation: i64) -> Heading {
    let radians = rotation as f64 * std::f64::consts::TAU / 4294967296.0;
    Heading {
        cos: (radians.cos() * 1_000_000.0).round() as i32,
        sin: (radians.sin() * 1_000_000.0).round() as i32,
    }
}

fn frame(app: &mut App, dt: i64, cfg: &Config) {
    let headings: Vec<Heading> =
        app.steered_rotations(dt, cfg).unwrap().into_iter().map(heading_of).collect();
    app.update(dt, &headings, cfg);
}

#[test]
fn controller_constants() {
    let cfg = Config::controller();
    assert_eq!(cfg.speed, 400_000);
    assert_eq!(cfg.rotation_speed, 1_025_347_913);
    assert_eq!(cfg.wrap_bound, 1_050_000);
    assert_eq!(cfg.entity_radius, 100_000);
}

#[test]
fn one_second_straight_ahead() {
    let cfg = Config::controller();
    let mut p = player_at(0, 0, 0);
    let input = InputState::new();
    p.update(1_000_000, &input, heading_of(0), &cfg);
    assert_eq!(p.position, Point2D { x: 400_000, y: 0 });
    assert_eq!(p.rotation, 0);
    assert_eq!(p.color, RED);
}

#[test]
fn single_wrap_past_the_right_edge() {
    let cfg = Config::controller();
    let mut p = player_at(1_300_000, 0, 0);
    p.update(0, &InputState::new(), heading_of(0), &cfg);
    assert_eq!(p.position.x, -800_000);
    assert_eq!(p.position.y, 0);
}

#[test]
fn wrap_past_the_left_edge_moving_backwards() {
    let cfg = Config::controller();
    let mut p = player_at(-1_000_000, 500_000, 0);
    p.update(1_000_000, &InputState::new(), Heading { cos: -1_000_000, sin: 0 }, &cfg);
    assert_eq!(p.position, Point2D { x: 700_000, y: 500_000 });
}

#[test]
fn upper_bound_folds_to_lower_bound() {
    let cfg = Config::controller();
    let mut p = player_at(1_050_000, -1_050_000, 0);
    p.update(0, &InputState::new(), heading_of(0), &cfg);
    assert_eq!(p.position, Point2D { x: -1_050_000, y: -1_050_000 });
}

#[test]
fn far_away_point_folds_in_one_step() {
    let cfg = Config::controller();
    let mut p = player_at(i64::MAX, i64::MIN, 0);
    p.update(0, &InputState::new(), heading_of(0), &cfg);
    assert!(-1_050_000 <= p.position.x && p.position.x < 1_050_000);
    assert!(-1_050_000 <= p.position.y && p.position.y < 1_050_000);
    assert_eq!((i64::MAX as i128 - p.position.x as i128) % 2_100_000, 0);
    assert_eq!((i64::MIN as i128 - p.position.y as i128) % 2_100_000, 0);
}

#[test]
fn huge_frame_time_still_lands_on_the_torus() {
    let cfg = Config::controller();
    let mut p = player_at(0, 0, 0);
    let mut input = InputState::new();
    input.set_axis(0, 1, i32::MIN);
    p.update(i64::MAX, &input, Heading { cos: i32::MAX, sin: i32::MIN }, &cfg);
    assert!(-1_050_000 <= p.position.x && p.position.x < 1_050_000);
    assert!(-1_050_000 <= p.position.y && p.position.y < 1_050_000);
}

#[test]
fn half_deflection_turns_half_the_rate() {
    let cfg = Config::controller();
    let mut input = InputState::new();
    input.set_axis(0, 0, 500_000);
    let p = player_at(0, 0, 0);
    assert_eq!(p.steered_rotation(1_000_000, &input, &cfg), Some(512_673_956));
    assert_eq!(DEFAULT_ROTATION_SPEED / 2, 512_673_956);
}

#[test]
fn negative_deflection_turns_the_other_way() {
    let cfg = Config::controller();
    let mut input = InputState::new();
    input.set_axis(0, 0, -500_000);
    let mut p = player_at(0, 0, 0);
    let r = p.steered_rotation(1_000_000, &input, &cfg).unwrap();
    assert_eq!(r, -512_673_957);
    p.update(1_000_000, &input, heading_of(r), &cfg);
    assert_eq!(p.rotation, -512_673_957);
}

#[test]
fn other_axes_do_not_steer() {
    let cfg = Config::controller();
    let mut input = InputState::new();
    input.set_axis(0, 1, 1_000_000);
    input.set_axis(1, 0, 1_000_000);
    let mut p = player_at(0, 0, 77);
    p.update(1_000_000, &input, heading_of(77), &cfg);
    assert_eq!(p.rotation, 77);
}

#[test]
fn no_input_keeps_rotation_over_many_frames() {
    let cfg = Config::controller();
    let mut app = App::new(vec![player_at(0, 0, 123_456_789), player_at(10, -10, 4_000_000_000)]);
    let start = app.players[0].position;
    for _ in 0..50 {
        frame(&mut app, 16_667, &cfg);
    }
    assert_eq!(app.players[0].rotation, 123_456_789);
    assert_eq!(app.players[1].rotation, 4_000_000_000);
    assert_ne!(app.players[0].position, start);
}

#[test]
fn setting_an_axis_twice_keeps_one_value() {
    let mut input = InputState::new();
    input.set_axis(0, 0, 500_000);
    input.set_axis(0, 0, 500_000);
    assert_eq!(input.axis(0, 0), Some(500_000));
    assert_eq!(input.len(), 1);
    input.set_axis(0, 0, -250_000);
    assert_eq!(input.axis(0, 0), Some(-250_000));
    assert_eq!(input.len(), 1);
}

#[test]
fn axes_are_told_apart() {
    let mut input = InputState::new();
    input.set_axis(1, 255, 1);
    input.set_axis(u32::MAX, 0, 2);
    input.set_axis(u32::MAX, 3, 3);
    input.set_axis(2, 0, 4);
    assert_eq!(input.axis(1, 255), Some(1));
    assert_eq!(input.axis(u32::MAX, 0), Some(2));
    assert_eq!(input.axis(u32::MAX, 3), Some(3));
    assert_eq!(input.axis(2, 0), Some(4));
    assert_eq!(input.axis(0, 0), None);
    assert_eq!(input.axis(1, 254), None);
    assert_eq!(input.len(), 4);
}

#[test]
fn entities_update_independently() {
    let cfg = Config::controller();
    let a = player_at(100_000, 200_000, 1_000_000_000);
    let b = Player { position: Point2D { x: -300_000, y: 900_000 }, rotation: 3_000_000_000, color: BLUE };
    let mut both = App::new(vec![a, b]);
    let mut alone = App::new(vec![b]);
    both.set_axis(0, 0, 250_000);
    alone.set_axis(0, 0, 250_000);
    frame(&mut both, 20_000, &cfg);
    frame(&mut alone, 20_000, &cfg);
    assert_eq!(both.players[1], alone.players[0]);

    let mut solo = a;
    let mut input = InputState::new();
    input.set_axis(0, 0, 250_000);
    let turned = solo.steered_rotation(20_000, &input, &cfg).unwrap();
    solo.update(20_000, &input, heading_of(turned), &cfg);
    assert_eq!(both.players[0], solo);
    assert_ne!(both.players[0], both.players[1]);
}

#[test]
fn identical_runs_give_identical_states() {
    let cfg = Config::controller();
    let run = || {
        let mut app = App::new(vec![player_at(0, 0, 0), player_at(-500_000, 500_000, 99)]);
        for k in 0..40i32 {
            if k % 7 == 0 {
                app.set_axis(0, 0, k * 20_000 - 300_000);
            }
            frame(&mut app, 16_000 + k as i64, &cfg);
        }
        app.players
    };
    assert_eq!(run(), run());
}

#[test]
fn placement_in_a_square_viewport() {
    let cfg = Config::controller();
    let app = App::new(vec![player_at(0, 0, 5)]);
    let r = app.placements(400, 400, &cfg);
    assert_eq!(
        r,
        vec![Placement { x: 200_000_000, y: 200_000_000, rotation: 5, half_size: 40_000_000 }]
    );
}

#[test]
fn placement_scales_by_the_smaller_side() {
    let cfg = Config::controller();
    let p = player_at(400_000, -100_000, 0);
    let r = p.placement(800, 400, &cfg);
    assert_eq!(r, Placement { x: 560_000_000, y: 160_000_000, rotation: 0, half_size: 40_000_000 });
}

#[test]
fn update_leaves_input_alone() {
    let cfg = Config::controller();
    let mut app = App::new(vec![player_at(0, 0, 0)]);
    app.set_axis(2, 1, 42);
    frame(&mut app, 16_000, &cfg);
    assert_eq!(app.input.axis(2, 1), Some(42));
    assert_eq!(app.players[0].position, Point2D { x: 6_400, y: 0 });
}

#[test]
fn rotation_accumulates_past_a_full_turn() {
    let cfg = Config::controller();
    let mut input = InputState::new();
    input.set_axis(0, 0, 1_000_000);
    let mut p = player_at(0, 0, 4_000_000_000);
    let r = p.steered_rotation(1_000_000, &input, &cfg).unwrap();
    assert_eq!(r, 5_025_347_913);
    p.update(1_000_000, &input, heading_of(r), &cfg);
    assert_eq!(p.rotation, 5_025_347_913);
}

#[test]
fn rotation_that_would_leave_i64_is_reported() {
    let cfg = Config::controller();
    let mut app = App::new(vec![player_at(0, 0, 0), player_at(0, 0, i64::MAX - 10)]);
    app.set_axis(0, 0, 1_000_000);
    assert_eq!(app.players[1].steered_rotation(1_000_000, &app.input, &cfg), None);
    assert_eq!(app.steered_rotations(1_000_000, &cfg), None);
    assert_eq!(app.players[0].steered_rotation(1_000_000, &app.input, &cfg), Some(1_025_347_913));
}

#[test]
fn last_axis_reading_decides_the_turn() {
    let cfg = Config::controller();
    let mut app = App::new(vec![player_at(0, 0, 1_000), player_at(0, 0, -7)]);
    app.set_axis(0, 0, 900_000);
    app.set_axis(0, 0, 500_000);
    assert_eq!(app.input.len(), 1);
    frame(&mut app, 1_000_000, &cfg);
    assert_eq!(app.players[0].rotation, 1_000 + 512_673_956);
    assert_eq!(app.players[1].rotation, -7 + 512_673_956);
    assert_eq!(app.input.axis(0, 0), Some(500_000));
}
