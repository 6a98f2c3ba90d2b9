//! The playfield and its frame loop: a ball and Dave driven by the same input, a
//! static mirrored paddle, all drawn through one double-buffered sprite table.
use vstd::prelude::*;
use crate::entity::{paddle_segment, shown_at, Ball, Dave, Paddle};
use crate::geometry::{Bounds, Position, Velocity, SCREEN_WIDTH};
use crate::input::InputSnapshot;
use crate::motion::Mover;
use crate::sprites::{fresh_attrs, SpriteAttrs, SpriteId, SpriteTable};

verus! {

/// The ball's sprite.
pub const BALL_SPRITE: SpriteId = 0;

/// The first of the paddle's three sprites, which follow one another.
pub const PADDLE_FIRST_SPRITE: SpriteId = 1;

/// Dave's sprite.
pub const DAVE_SPRITE: SpriteId = 4;

/// The number of sprites on the playfield.
pub const SPRITE_COUNT: usize = 5;

/// Width and height of the ball sprite.
pub const BALL_SIZE: i32 = 16;

/// Width of Dave's sprite.
pub const DAVE_WIDTH: i32 = 16;

/// Height of Dave's sprite.
pub const DAVE_HEIGHT: i32 = 32;

/// How far above the top edge Dave may go.
pub const DAVE_MIN_Y: i32 = -8;

/// Width of a paddle sprite.
pub const PADDLE_WIDTH: i32 = 16;

/// Gap between the paddle and the edge of the screen.
pub const PADDLE_MARGIN: i32 = 8;

pub open spec fn ball_bounds() -> Bounds {
    Bounds { min_x: 0, max_x: 224, min_y: 0, max_y: 144 }
}

pub open spec fn dave_bounds() -> Bounds {
    Bounds { min_x: 0, max_x: 224, min_y: -8i32, max_y: 128 }
}

/// Where the right-hand paddle stands.
pub open spec fn paddle_origin() -> (int, int) {
    (216, 8)
}

/// The whole game state.
pub struct World {
    table: SpriteTable,
    ball: Ball,
    ball_motion: Mover,
    paddle: Paddle,
    dave: Dave,
    dave_motion: Mover,
}

impl World {
    pub closed spec fn ball_motion(&self) -> Mover {
        self.ball_motion
    }

    pub closed spec fn dave_motion(&self) -> Mover {
        self.dave_motion
    }

    /// Sprite attributes as the next commit would show them.
    pub closed spec fn staged_view(&self) -> Seq<SpriteAttrs> {
        self.table.staged_view()
    }

    /// Sprite attributes as the display shows them.
    pub closed spec fn committed_view(&self) -> Seq<SpriteAttrs> {
        self.table.committed_view()
    }

    /// The sprites are laid out in creation order (ball, three paddle segments,
    /// Dave), each entity moves inside its own bounds, and the staged sprite
    /// attributes always show the current positions.
    pub closed spec fn wf(&self) -> bool {
        &&& self.table.wf()
        &&& self.table.len_spec() == SPRITE_COUNT
        &&& self.ball.wf_in(&self.table)
        &&& self.paddle.wf_in(&self.table)
        &&& self.dave.wf_in(&self.table)
        &&& self.ball.id() == BALL_SPRITE
        &&& self.paddle.ids() == seq![1usize, 2usize, 3usize]
        &&& self.dave.id() == DAVE_SPRITE
        &&& self.ball_motion.wf()
        &&& self.dave_motion.wf()
        &&& self.ball_motion.bounds == ball_bounds()
        &&& self.dave_motion.bounds == dave_bounds()
        &&& self.table.staged_view()[0] == shown_at(
            self.ball_motion.position.x as int,
            self.ball_motion.position.y as int,
        )
        &&& forall|i: int| 0 <= i < 3 ==> #[trigger] self.table.staged_view()[i + 1] == paddle_segment(
            paddle_origin().0,
            paddle_origin().1,
            true,
            i,
        )
        &&& self.table.staged_view()[4] == shown_at(
            self.dave_motion.position.x as int,
            self.dave_motion.position.y as int,
        )
    }


    /// The playfield at start-up: the ball at rest at (50, 50), the paddle
    /// mirrored against the right edge, Dave at rest at (120, 80). Every sprite
    /// is staged as shown; nothing has been committed yet.
    pub fn new() -> (r: World)
        ensures
            r.wf(),
            r.ball_motion() == (Mover {
                position: Position { x: 50, y: 50 },
                velocity: Velocity { vx: 0, vy: 0 },
                bounds: ball_bounds(),
            }),
            r.dave_motion() == (Mover {
                position: Position { x: 120, y: 80 },
                velocity: Velocity { vx: 0, vy: 0 },
                bounds: dave_bounds(),
            }),
            r.staged_view() == seq![
                shown_at(50, 50),
                paddle_segment(216, 8, true, 0),
                paddle_segment(216, 8, true, 1),
                paddle_segment(216, 8, true, 2),
                shown_at(120, 80),
            ],
            r.committed_view() == seq![fresh_attrs(); 5],
    {
        let mut table = SpriteTable::new();
        let ball = Ball::new(&mut table, 50, 50);
        let paddle = Paddle::new(
            &mut table,
            SCREEN_WIDTH - PADDLE_WIDTH - PADDLE_MARGIN,
            PADDLE_MARGIN,
            true,
        );
        let dave = Dave::new(&mut table, 120, 80);
        let ball_motion = Mover::new(
            Position { x: 50, y: 50 },
            Bounds::for_sprite(BALL_SIZE, BALL_SIZE, 0),
        );
        let dave_motion = Mover::new(
            Position { x: 120, y: 80 },
            Bounds::for_sprite(DAVE_WIDTH, DAVE_HEIGHT, DAVE_MIN_Y),
        );
        let r = World { table, ball, ball_motion, paddle, dave, dave_motion };
        assert(r.table.staged_view() =~= seq![
            shown_at(50, 50),
            paddle_segment(216, 8, true, 0),
            paddle_segment(216, 8, true, 1),
            paddle_segment(216, 8, true, 2),
            shown_at(120, 80),
        ]);
        assert(r.table.committed_view() =~= seq![fresh_attrs(); 5]);
        r
    }

    /// The first three steps of a frame, for the ball and then for Dave: move by
    /// the velocity held from the previous frame, clamped to the entity's
    /// bounds; derive the next velocity from `input`; stage the new position.
    /// The committed sprites are left as they were.
    pub fn stage_frame(&mut self, input: InputSnapshot)
        requires
            old(self).wf(),
        ensures
            final(self).wf(),
            final(self).ball_motion() == old(self).ball_motion().step_spec(input),
            final(self).dave_motion() == old(self).dave_motion().step_spec(input),
            final(self).staged_view() == old(self).staged_view().update(
                BALL_SPRITE as int,
                shown_at(
                    final(self).ball_motion().position.x as int,
                    final(self).ball_motion().position.y as int,
                ),
            ).update(
                DAVE_SPRITE as int,
                shown_at(
                    final(self).dave_motion().position.x as int,
                    final(self).dave_motion().position.y as int,
                ),
            ),
            final(self).committed_view() == old(self).committed_view(),
    {
        self.ball_motion.step(input);
        self.ball.set_position(&mut self.table, self.ball_motion.position.x, self.ball_motion.position.y);
        self.dave_motion.step(input);
        self.dave.set_position(&mut self.table, self.dave_motion.position.x, self.dave_motion.position.y);
    }

    /// Makes everything staged during the frame visible at once.
    pub fn commit(&mut self)
        requires
            old(self).wf(),
        ensures
            final(self).wf(),
            final(self).ball_motion() == old(self).ball_motion(),
            final(self).dave_motion() == old(self).dave_motion(),
            final(self).staged_view() == old(self).staged_view(),
            final(self).committed_view() == old(self).staged_view(),
    {
        self.table.commit();
    }

    /// The ball's position, velocity and bounds.
    pub fn ball(&self) -> (r: Mover)
        ensures
            r == self.ball_motion(),
    {
        self.ball_motion
    }

    /// Dave's position, velocity and bounds.
    pub fn dave(&self) -> (r: Mover)
        ensures
            r == self.dave_motion(),
    {
        self.dave_motion
    }

    /// The committed attributes of sprite `id`.
    pub fn committed(&self, id: SpriteId) -> (r: SpriteAttrs)
        requires
            self.wf(),
            id < SPRITE_COUNT,
        ensures
            r == self.committed_view()[id as int],
    {
        self.table.committed(id)
    }

    /// The staged attributes of sprite `id`.
    pub fn staged(&self, id: SpriteId) -> (r: SpriteAttrs)
        requires
            self.wf(),
            id < SPRITE_COUNT,
        ensures
            r == self.staged_view()[id as int],
    {
        self.table.staged(id)
    }
}

} // verus!
