//! A double-buffered table of sprite attributes: writes are staged and become
//! visible together at commit.
use vstd::prelude::*;

verus! {

/// The attributes of one sprite.
#[derive(Clone, Copy, Debug, PartialEq, Eq, Structural)]
pub struct SpriteAttrs {
    pub x: i32,
    pub y: i32,
    pub hflip: bool,
    pub vflip: bool,
    pub visible: bool,
}

/// The attributes of a freshly allocated sprite: at the origin, unflipped, hidden.
pub open spec fn fresh_attrs() -> SpriteAttrs {
    SpriteAttrs { x: 0, y: 0, hflip: false, vflip: false, visible: false }
}

/// Sprites are named by their index in the table.
pub type SpriteId = usize;

/// Staged and committed attributes of every sprite allocated so far.
pub struct SpriteTable {
    staged: Vec<SpriteAttrs>,
    committed: Vec<SpriteAttrs>,
}

impl SpriteTable {
    /// Both buffers hold one entry per allocated sprite.
    pub open spec fn wf(&self) -> bool {
        self.staged_view().len() == self.committed_view().len()
    }

    /// The attributes as the next commit would show them.
    pub closed spec fn staged_view(&self) -> Seq<SpriteAttrs> {
        self.staged@
    }

    /// The attributes as the display currently shows them.
    pub closed spec fn committed_view(&self) -> Seq<SpriteAttrs> {
        self.committed@
    }

    pub open spec fn len_spec(&self) -> nat {
        self.staged_view().len()
    }

    /// An empty table.
    pub fn new() -> (r: SpriteTable)
        ensures
            r.wf(),
            r.staged_view() == Seq::<SpriteAttrs>::empty(),
            r.committed_view() == Seq::<SpriteAttrs>::empty(),
    {
        SpriteTable { staged: Vec::new(), committed: Vec::new() }
    }

    /// The number of allocated sprites.
    pub fn len(&self) -> (r: usize)
        requires
            self.wf(),
        ensures
            r == self.len_spec(),
    {
        self.staged.len()
    }

    /// Allocates a hidden sprite at the origin, in both buffers, and returns its id.
    pub fn allocate(&mut self) -> (id: SpriteId)
        requires
            old(self).wf(),
            old(self).len_spec() < usize::MAX,
        ensures
            final(self).wf(),
            id == old(self).len_spec(),
            final(self).staged_view() == old(self).staged_view().push(fresh_attrs()),
            final(self).committed_view() == old(self).committed_view().push(fresh_attrs()),
    {
        let id = self.staged.len();
        let a = SpriteAttrs { x: 0, y: 0, hflip: false, vflip: false, visible: false };
        self.staged.push(a);
        self.committed.push(a);
        id
    }

    /// The staged attributes of sprite `id`.
    pub fn staged(&self, id: SpriteId) -> (r: SpriteAttrs)
        requires
            self.wf(),
            id < self.len_spec(),
        ensures
            r == self.staged_view()[id as int],
    {
        self.staged[id]
    }

    /// The committed attributes of sprite `id`.
    pub fn committed(&self, id: SpriteId) -> (r: SpriteAttrs)
        requires
            self.wf(),
            id < self.len_spec(),
        ensures
            r == self.committed_view()[id as int],
    {
        self.committed[id]
    }

    /// Stages a new position for sprite `id`; nothing visible changes.
    pub fn set_position(&mut self, id: SpriteId, x: i32, y: i32)
        requires
            old(self).wf(),
            id < old(self).len_spec(),
        ensures
            final(self).wf(),
            final(self).staged_view() == old(self).staged_view().update(
                id as int,
                SpriteAttrs { x, y, ..old(self).staged_view()[id as int] },
            ),
            final(self).committed_view() == old(self).committed_view(),
    {
        let a = self.staged[id];
        self.staged.set(id, SpriteAttrs { x, y, ..a });
    }

    /// Stages new flip flags for sprite `id`; nothing visible changes.
    pub fn set_flip(&mut self, id: SpriteId, hflip: bool, vflip: bool)
        requires
            old(self).wf(),
            id < old(self).len_spec(),
        ensures
            final(self).wf(),
            final(self).staged_view() == old(self).staged_view().update(
                id as int,
                SpriteAttrs { hflip, vflip, ..old(self).staged_view()[id as int] },
            ),
            final(self).committed_view() == old(self).committed_view(),
    {
        let a = self.staged[id];
        self.staged.set(id, SpriteAttrs { hflip, vflip, ..a });
    }

    /// Stages the visibility of sprite `id`; nothing visible changes.
    pub fn set_visible(&mut self, id: SpriteId, visible: bool)
        requires
            old(self).wf(),
            id < old(self).len_spec(),
        ensures
            final(self).wf(),
            final(self).staged_view() == old(self).staged_view().update(
                id as int,
                SpriteAttrs { visible, ..old(self).staged_view()[id as int] },
            ),
            final(self).committed_view() == old(self).committed_view(),
    {
        let a = self.staged[id];
        self.staged.set(id, SpriteAttrs { visible, ..a });
    }

    /// Makes every staged attribute visible at once.
    pub fn commit(&mut self)
        requires
            old(self).wf(),
        ensures
            final(self).wf(),
            final(self).staged_view() == old(self).staged_view(),
            final(self).committed_view() == old(self).staged_view(),
    {
        self.committed = self.staged.clone();
    }
}

} // verus!
