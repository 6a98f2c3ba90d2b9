use paddle_demo::entity::{Ball, Dave, Paddle};
use paddle_demo::sprites::{SpriteAttrs, SpriteTable};

#[test]
fn paddle_new_places_three_segments() {
    let mut t = SpriteTable::new();
    let p = Paddle::new(&mut t, 8, 8, false);
    assert_eq!(t.len(), 3);
    assert_eq!(t.staged(0), SpriteAttrs { x: 8, y: 8, hflip: false, vflip: false, visible: true });
    assert_eq!(t.staged(1), SpriteAttrs { x: 8, y: 24, hflip: false, vflip: false, visible: true });
    assert_eq!(t.staged(2), SpriteAttrs { x: 8, y: 40, hflip: false, vflip: true, visible: true });
    p.set_position(&mut t, 30, 100);
    assert_eq!(t.staged(0).y, 100);
    assert_eq!(t.staged(1).y, 116);
    assert_eq!(t.staged(2), SpriteAttrs { x: 30, y: 132, hflip: false, vflip: true, visible: true });
    assert_eq!(t.committed(2).visible, false);
}

#[test]
fn dave_and_ball_new_show_one_sprite() {
    let mut t = SpriteTable::new();
    let b = Ball::new(&mut t, 50, 50);
    let d = Dave::new(&mut t, 120, 80);
    assert_eq!(t.len(), 2);
    assert_eq!(t.staged(0), SpriteAttrs { x: 50, y: 50, hflip: false, vflip: false, visible: true });
    assert_eq!(t.staged(1), SpriteAttrs { x: 120, y: 80, hflip: false, vflip: false, visible: true });
    d.set_position(&mut t, 0, -8);
    b.set_position(&mut t, 7, 9);
    assert_eq!(t.staged(1).y, -8);
    assert_eq!(t.staged(0).x, 7);
}
