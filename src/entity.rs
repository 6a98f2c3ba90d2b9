//! Entities built from one or more sprites of a `SpriteTable`, each placed at a
//! fixed offset from the entity's logical position.
use vstd::prelude::*;
use crate::sprites::{fresh_attrs, SpriteAttrs, SpriteId, SpriteTable};

verus! {

/// Height of one paddle segment in pixels.
pub const PADDLE_SEGMENT_HEIGHT: i32 = 16;

/// Attributes of a shown, unflipped sprite at `(x, y)`.
pub open spec fn shown_at(x: int, y: int) -> SpriteAttrs {
    SpriteAttrs { x: x as i32, y: y as i32, hflip: false, vflip: false, visible: true }
}

/// The attributes of paddle segment `i` (0 top cap, 1 middle, 2 bottom cap) for a
/// paddle at `(x, y)`: segments are stacked downwards, the bottom cap is flipped
/// vertically, and a mirrored paddle is flipped horizontally as a whole.
pub open spec fn paddle_segment(x: int, y: int, mirrored: bool, i: int) -> SpriteAttrs {
    SpriteAttrs {
        x: x as i32,
        y: (y + 16 * i) as i32,
        hflip: mirrored,
        vflip: i == 2,
        visible: true,
    }
}

/// `a` moved to `(x, y)`, its other attributes kept.
pub open spec fn moved(a: SpriteAttrs, x: int, y: int) -> SpriteAttrs {
    SpriteAttrs { x: x as i32, y: y as i32, ..a }
}

/// A paddle of three vertically stacked sprites: a cap, a middle piece and a
/// second cap.
pub struct Paddle {
    start: SpriteId,
    mid: SpriteId,
    end: SpriteId,
}

impl Paddle {
    /// The sprites of the paddle, top to bottom.
    pub closed spec fn ids(&self) -> Seq<SpriteId> {
        seq![self.start, self.mid, self.end]
    }

    /// The paddle's three sprites are distinct sprites of `t`.
    pub open spec fn wf_in(&self, t: &SpriteTable) -> bool {
        &&& t.wf()
        &&& self.ids().len() == 3
        &&& forall|i: int| 0 <= i < 3 ==> (#[trigger] self.ids()[i]) < t.len_spec()
        &&& self.ids()[0] != self.ids()[1]
        &&& self.ids()[0] != self.ids()[2]
        &&& self.ids()[1] != self.ids()[2]
    }

    /// Allocates and shows the three segments, flips them as `paddle_segment`
    /// says, and places the paddle at `(start_x, start_y)`. Nothing visible
    /// changes until the table is committed.
    pub fn new(table: &mut SpriteTable, start_x: i32, start_y: i32, mirrored: bool) -> (r: Paddle)
        requires
            old(table).wf(),
            old(table).len_spec() + 3 < usize::MAX,
            start_y <= i32::MAX - 2 * PADDLE_SEGMENT_HEIGHT,
        ensures
            r.wf_in(final(table)),
            r.ids() == seq![
                old(table).len_spec() as usize,
                (old(table).len_spec() + 1) as usize,
                (old(table).len_spec() + 2) as usize,
            ],
            final(table).staged_view() == old(table).staged_view() + seq![
                paddle_segment(start_x as int, start_y as int, mirrored, 0),
                paddle_segment(start_x as int, start_y as int, mirrored, 1),
                paddle_segment(start_x as int, start_y as int, mirrored, 2),
            ],
            final(table).committed_view() == old(table).committed_view() + seq![
                fresh_attrs(),
                fresh_attrs(),
                fresh_attrs(),
            ],
    {
        let start = table.allocate();
        let mid = table.allocate();
        let end = table.allocate();
        table.set_visible(start, true);
        table.set_visible(mid, true);
        table.set_visible(end, true);
        table.set_flip(start, mirrored, false);
        table.set_flip(mid, mirrored, false);
        table.set_flip(end, mirrored, true);
        let paddle = Paddle { start, mid, end };
        paddle.set_position(table, start_x, start_y);
        assert(table.staged_view() =~= old(table).staged_view() + seq![
            paddle_segment(start_x as int, start_y as int, mirrored, 0),
            paddle_segment(start_x as int, start_y as int, mirrored, 1),
            paddle_segment(start_x as int, start_y as int, mirrored, 2),
        ]);
        assert(table.committed_view() =~= old(table).committed_view() + seq![
            fresh_attrs(),
            fresh_attrs(),
            fresh_attrs(),
        ]);
        paddle
    }

    /// Stages the paddle at `(x, y)`: every segment at column `x`, segment `i`
    /// at row `y + 16 * i`, flips and visibility kept. Nothing visible changes.
    pub fn set_position(&self, table: &mut SpriteTable, x: i32, y: i32)
        requires
            self.wf_in(old(table)),
            y <= i32::MAX - 2 * PADDLE_SEGMENT_HEIGHT,
        ensures
            self.wf_in(final(table)),
            final(table).staged_view() == old(table).staged_view()
                .update(self.ids()[0] as int, moved(old(table).staged_view()[self.ids()[0] as int], x as int, y as int))
                .update(self.ids()[1] as int, moved(old(table).staged_view()[self.ids()[1] as int], x as int, y + 16))
                .update(self.ids()[2] as int, moved(old(table).staged_view()[self.ids()[2] as int], x as int, y + 32)),
            final(table).committed_view() == old(table).committed_view(),
    {
        table.set_position(self.start, x, y);
        table.set_position(self.mid, x, y + PADDLE_SEGMENT_HEIGHT);
        table.set_position(self.end, x, y + 2 * PADDLE_SEGMENT_HEIGHT);
    }
}

/// A ball: a single sprite.
pub struct Ball {
    sprite: SpriteId,
}

impl Ball {
    /// The entity's sprite.
    pub closed spec fn id(&self) -> SpriteId {
        self.sprite
    }

    pub open spec fn wf_in(&self, t: &SpriteTable) -> bool {
        t.wf() && self.id() < t.len_spec()
    }

    /// Allocates and shows the sprite, staged at `(start_x, start_y)`. Nothing
    /// visible changes until the table is committed.
    pub fn new(table: &mut SpriteTable, start_x: i32, start_y: i32) -> (r: Ball)
        requires
            old(table).wf(),
            old(table).len_spec() + 1 < usize::MAX,
        ensures
            r.wf_in(final(table)),
            r.id() == old(table).len_spec(),
            final(table).staged_view() == old(table).staged_view().push(
                shown_at(start_x as int, start_y as int),
            ),
            final(table).committed_view() == old(table).committed_view().push(fresh_attrs()),
    {
        let sprite = table.allocate();
        table.set_visible(sprite, true);
        let r = Ball { sprite };
        r.set_position(table, start_x, start_y);
        r
    }

    /// Stages the sprite at `(x, y)`, its other attributes kept. Nothing visible
    /// changes.
    pub fn set_position(&self, table: &mut SpriteTable, x: i32, y: i32)
        requires
            self.wf_in(old(table)),
        ensures
            self.wf_in(final(table)),
            final(table).staged_view() == old(table).staged_view().update(
                self.id() as int,
                moved(old(table).staged_view()[self.id() as int], x as int, y as int),
            ),
            final(table).committed_view() == old(table).committed_view(),
    {
        table.set_position(self.sprite, x, y);
    }
}

/// Dave, the player character: a single sprite.
pub struct Dave {
    sprite: SpriteId,
}

impl Dave {
    /// The entity's sprite.
    pub closed spec fn id(&self) -> SpriteId {
        self.sprite
    }

    pub open spec fn wf_in(&self, t: &SpriteTable) -> bool {
        t.wf() && self.id() < t.len_spec()
    }

    /// Allocates and shows the sprite, staged at `(start_x, start_y)`. Nothing
    /// visible changes until the table is committed.
    pub fn new(table: &mut SpriteTable, start_x: i32, start_y: i32) -> (r: Dave)
        requires
            old(table).wf(),
            old(table).len_spec() + 1 < usize::MAX,
        ensures
            r.wf_in(final(table)),
            r.id() == old(table).len_spec(),
            final(table).staged_view() == old(table).staged_view().push(
                shown_at(start_x as int, start_y as int),
            ),
            final(table).committed_view() == old(table).committed_view().push(fresh_attrs()),
    {
        let sprite = table.allocate();
        table.set_visible(sprite, true);
        let r = Dave { sprite };
        r.set_position(table, start_x, start_y);
        r
    }

    /// Stages the sprite at `(x, y)`, its other attributes kept. Nothing visible
    /// changes.
    pub fn set_position(&self, table: &mut SpriteTable, x: i32, y: i32)
        requires
            self.wf_in(old(table)),
        ensures
            self.wf_in(final(table)),
            final(table).staged_view() == old(table).staged_view().update(
                self.id() as int,
                moved(old(table).staged_view()[self.id() as int], x as int, y as int),
            ),
            final(table).committed_view() == old(table).committed_view(),
    {
        table.set_position(self.sprite, x, y);
    }
}

} // verus!
