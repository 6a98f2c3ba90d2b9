use paddle_demo::geometry::{clamp_axis, integrate, Bounds, Position, Velocity, SCREEN_HEIGHT, SCREEN_WIDTH};
use paddle_demo::input::{derive_velocity, InputSnapshot, Tri};
use paddle_demo::motion::Mover;
use paddle_demo::sprites::{SpriteAttrs, SpriteTable};
use paddle_demo::world::{World, BALL_SPRITE, DAVE_SPRITE, PADDLE_FIRST_SPRITE, SPRITE_COUNT};

fn snapshot(x: Tri, y: Tri, fast: bool) -> InputSnapshot {
    InputSnapshot { x_axis: x, y_axis: y, fast_held: fast }
}

fn idle() -> InputSnapshot {
    snapshot(Tri::Zero, Tri::Zero, false)
}

fn ball_bounds() -> Bounds {
    Bounds::for_sprite(16, 16, 0)
}

#[test]
fn idle_frame_keeps_position() {
    let mut m = Mover::new(Position { x: 50, y: 50 }, ball_bounds());
    m.step(idle());
    assert_eq!(m.position, Position { x: 50, y: 50 });
    assert_eq!(m.velocity, Velocity { vx: 0, vy: 0 });
}

#[test]
fn input_moves_on_following_frame() {
    let mut m = Mover::new(Position { x: 50, y: 50 }, ball_bounds());
    let right = snapshot(Tri::Positive, Tri::Zero, false);
    m.step(right);
    assert_eq!(m.position, Position { x: 50, y: 50 });
    assert_eq!(m.velocity, Velocity { vx: 1, vy: 0 });
    m.step(idle());
    assert_eq!(m.position, Position { x: 51, y: 50 });
}

#[test]
fn left_edge_clamps_at_zero() {
    let mut m = Mover::new(Position { x: 0, y: 50 }, ball_bounds());
    let left = snapshot(Tri::Negative, Tri::Zero, false);
    for _ in 0..3 {
        m.step(left);
        assert_eq!(m.position.x, 0);
        assert!(m.position.x >= 0);
    }
    m.step(idle());
    assert_eq!(m.position, Position { x: 0, y: 50 });
}

#[test]
fn dave_fast_up_clamps_at_minus_eight() {
    let mut w = World::new();
    assert_eq!(w.dave().position, Position { x: 120, y: 80 });
    let up_fast = snapshot(Tri::Zero, Tri::Negative, true);
    w.stage_frame(up_fast);
    assert_eq!(w.dave().velocity.vy, -2);
    assert_eq!(w.dave().position, Position { x: 120, y: 80 });
    for _ in 0..100 {
        w.stage_frame(up_fast);
        w.commit();
        assert!(w.dave().position.y >= -8);
    }
    assert_eq!(w.dave().position.y, -8);
    assert_eq!(w.dave().position.x, 120);
    // the ball reads the same input, but its top edge is row 0
    assert_eq!(w.ball().position.y, 0);
    assert_eq!(w.committed(DAVE_SPRITE).y, -8);
}

#[test]
fn fast_button_doubles_velocity() {
    let cases = [Tri::Negative, Tri::Zero, Tri::Positive];
    for x in cases {
        for y in cases {
            let slow = derive_velocity(snapshot(x, y, false));
            let fast = derive_velocity(snapshot(x, y, true));
            assert_eq!(fast.vx, 2 * slow.vx);
            assert_eq!(fast.vy, 2 * slow.vy);
            assert!(-2 <= fast.vx && fast.vx <= 2 && -2 <= fast.vy && fast.vy <= 2);
        }
    }
    assert_eq!(derive_velocity(snapshot(Tri::Positive, Tri::Negative, true)), Velocity { vx: 2, vy: -2 });
    assert_eq!(derive_velocity(snapshot(Tri::Negative, Tri::Positive, false)), Velocity { vx: -1, vy: 1 });
}

#[test]
fn tri_values() {
    assert_eq!(Tri::Negative.value(), -1);
    assert_eq!(Tri::Zero.value(), 0);
    assert_eq!(Tri::Positive.value(), 1);
}

#[test]
fn clamp_axis_formula() {
    assert_eq!(clamp_axis(10, 2, 0, 224), 12);
    assert_eq!(clamp_axis(1, -2, 0, 224), 0);
    assert_eq!(clamp_axis(223, 2, 0, 224), 224);
    assert_eq!(clamp_axis(i32::MAX, 2, 0, 224), 224);
    assert_eq!(clamp_axis(i32::MIN, -2, -8, 128), -8);
    assert_eq!(clamp_axis(5, 0, 5, 5), 5);
}

#[test]
fn integrate_clamps_each_axis() {
    let b = Bounds::for_sprite(16, 32, -8);
    assert_eq!(b, Bounds { min_x: 0, max_x: SCREEN_WIDTH - 16, min_y: -8, max_y: SCREEN_HEIGHT - 32 });
    let p = integrate(Position { x: 224, y: -7 }, Velocity { vx: 2, vy: -2 }, b);
    assert_eq!(p, Position { x: 224, y: -8 });
    let q = integrate(Position { x: 100, y: 100 }, Velocity { vx: -2, vy: 1 }, b);
    assert_eq!(q, Position { x: 98, y: 101 });
}

#[test]
fn bottom_right_corner_holds() {
    let mut m = Mover::new(Position { x: 220, y: 140 }, ball_bounds());
    let down_right = snapshot(Tri::Positive, Tri::Positive, true);
    for _ in 0..10 {
        m.step(down_right);
        assert!(m.position.x <= 224 && m.position.y <= 144);
    }
    assert_eq!(m.position, Position { x: 224, y: 144 });
}

#[test]
fn staged_writes_are_invisible_until_commit() {
    let mut w = World::new();
    let blank = SpriteAttrs { x: 0, y: 0, hflip: false, vflip: false, visible: false };
    for id in 0..SPRITE_COUNT {
        assert_eq!(w.committed(id), blank);
    }
    w.stage_frame(snapshot(Tri::Positive, Tri::Zero, false));
    for id in 0..SPRITE_COUNT {
        assert_eq!(w.committed(id), blank);
    }
    w.commit();
    let ball = SpriteAttrs { x: 50, y: 50, hflip: false, vflip: false, visible: true };
    assert_eq!(w.committed(BALL_SPRITE), ball);
    w.stage_frame(idle());
    assert_eq!(w.staged(BALL_SPRITE).x, 51);
    assert_eq!(w.committed(BALL_SPRITE), ball);
    w.commit();
    assert_eq!(w.committed(BALL_SPRITE).x, 51);
}

#[test]
fn paddle_segments_are_stacked_and_flipped() {
    let w = World::new();
    for i in 0..3 {
        let a = w.staged(PADDLE_FIRST_SPRITE + i);
        assert_eq!(a.x, 216);
        assert_eq!(a.y, 8 + 16 * i as i32);
        assert!(a.hflip);
        assert_eq!(a.vflip, i == 2);
        assert!(a.visible);
    }
}

#[test]
fn ball_and_dave_move_in_lockstep() {
    let mut w = World::new();
    let right = snapshot(Tri::Positive, Tri::Zero, false);
    w.stage_frame(right);
    w.stage_frame(right);
    w.stage_frame(right);
    assert_eq!(w.ball().position, Position { x: 52, y: 50 });
    assert_eq!(w.dave().position, Position { x: 122, y: 80 });
}

#[test]
fn sprite_table_staging() {
    let mut t = SpriteTable::new();
    assert_eq!(t.len(), 0);
    let id = t.allocate();
    assert_eq!(id, 0);
    assert_eq!(t.len(), 1);
    t.set_position(id, 3, 4);
    t.set_flip(id, true, false);
    t.set_visible(id, true);
    let want = SpriteAttrs { x: 3, y: 4, hflip: true, vflip: false, visible: true };
    assert_eq!(t.staged(id), want);
    assert_eq!(t.committed(id).visible, false);
    t.commit();
    assert_eq!(t.committed(id), want);
}
