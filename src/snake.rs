use vstd::prelude::*;

verus! {

/// A heading of the snake, or a requested turn.
#[derive(Clone, Copy, PartialEq, Eq, Structural, Debug)]
pub enum Direction {
    Up,
    Down,
    Left,
    Right,
}

impl Direction {
    pub open spec fn opposite_spec(self) -> Direction {
        match self {
            Direction::Up => Direction::Down,
            Direction::Down => Direction::Up,
            Direction::Left => Direction::Right,
            Direction::Right => Direction::Left,
        }
    }

    pub fn opposite(&self) -> (r: Direction)
        ensures
            r == self.opposite_spec(),
    {
        match self {
            Direction::Up => Direction::Down,
            Direction::Down => Direction::Up,
            Direction::Left => Direction::Right,
            Direction::Right => Direction::Left,
        }
    }
}

/// Taking the opposite twice gives the direction back.
pub proof fn lemma_opposite_involutive(d: Direction)
    ensures
        d.opposite_spec().opposite_spec() == d,
{
}

/// One cell of the grid.
#[derive(Clone, Copy, PartialEq, Eq, Structural, Debug)]
pub struct Block {
    pub x: i32,
    pub y: i32,
}

/// The heading after a turn request: a request for the reverse of the
/// current heading is ignored, as is no request at all.
pub open spec fn turned(current: Direction, requested: Option<Direction>) -> Direction {
    match requested {
        Some(d) => if d == current.opposite_spec() {
            current
        } else {
            d
        },
        None => current,
    }
}

/// The cell next to `b` in direction `d` (the y axis points down).
pub open spec fn stepped(b: Block, d: Direction) -> Block {
    match d {
        Direction::Up => Block { x: b.x, y: (b.y - 1) as i32 },
        Direction::Down => Block { x: b.x, y: (b.y + 1) as i32 },
        Direction::Left => Block { x: (b.x - 1) as i32, y: b.y },
        Direction::Right => Block { x: (b.x + 1) as i32, y: b.y },
    }
}

/// The snake at its start: three cells in a row, head at `(x, y)`, heading right.
pub open spec fn start_body(x: i32, y: i32) -> Seq<Block> {
    seq![Block { x: x, y: y }, Block { x: (x - 1) as i32, y: y }, Block { x: (x - 2) as i32, y: y }]
}

/// The snake: its cells from head to tail, its heading, and the cell that
/// the last move gave up (kept so that the snake can grow back into it).
pub struct Snake {
    direction: Direction,
    body: Vec<Block>,
    tail: Option<Block>,
}

impl Snake {
    /// The cells, head first.
    pub closed spec fn cells(&self) -> Seq<Block> {
        self.body@
    }

    pub closed spec fn heading(&self) -> Direction {
        self.direction
    }

    /// The cell given up by the last move, if it has not been regrown.
    pub closed spec fn released(&self) -> Option<Block> {
        self.tail
    }

    pub open spec fn head(&self) -> Block {
        self.cells()[0]
    }

    pub open spec fn occupies(&self, x: i32, y: i32) -> bool {
        self.cells().contains(Block { x: x, y: y })
    }

    /// Where the head goes on a move with the given turn request.
    pub open spec fn next_head_spec(&self, requested: Option<Direction>) -> Block {
        stepped(self.head(), turned(self.heading(), requested))
    }

    /// At least one cell, no cell twice, the heading points from the second
    /// cell to the head, and the released cell is free.
    pub open spec fn wf(&self) -> bool {
        &&& self.cells().len() >= 1
        &&& self.cells().no_duplicates()
        &&& self.cells().len() >= 2 ==> self.cells()[0] == stepped(self.cells()[1], self.heading())
        &&& self.released() matches Some(t) ==> {
            &&& !self.cells().contains(t)
            &&& self.cells().len() == 1 ==> self.cells()[0] == stepped(t, self.heading())
        }
    }

    /// The head can move one cell in any direction without leaving `i32`.
    pub open spec fn head_in_range(&self) -> bool {
        &&& i32::MIN < self.head().x < i32::MAX
        &&& i32::MIN < self.head().y < i32::MAX
    }

    /// `post` is `pre` after one move with the given turn request: the new
    /// head is pushed at the front and the last cell is released.
    pub open spec fn advanced(pre: Snake, post: Snake, requested: Option<Direction>) -> bool {
        &&& post.heading() == turned(pre.heading(), requested)
        &&& post.cells() == seq![pre.next_head_spec(requested)] + pre.cells().drop_last()
        &&& post.released() == Some(pre.cells().last())
    }

    /// `post` is `pre` with its released cell, if any, put back at the tail.
    pub open spec fn regrown(pre: Snake, post: Snake) -> bool {
        &&& post.heading() == pre.heading()
        &&& post.released() is None
        &&& post.cells() == match pre.released() {
            Some(t) => pre.cells().push(t),
            None => pre.cells(),
        }
    }

    pub fn new(x: i32, y: i32) -> (r: Snake)
        requires
            x >= i32::MIN + 2,
        ensures
            r.wf(),
            r.cells() == start_body(x, y),
            r.heading() == Direction::Right,
            r.released() is None,
    {
        let mut body: Vec<Block> = Vec::new();
        body.push(Block { x, y });
        body.push(Block { x: x - 1, y });
        body.push(Block { x: x - 2, y });
        let r = Snake { direction: Direction::Right, body, tail: None };
        assert(r.cells() =~= start_body(x, y));
        r
    }

    pub fn head_position(&self) -> (r: (i32, i32))
        requires
            self.wf(),
        ensures
            r == (self.head().x, self.head().y),
    {
        let b = self.body[0];
        (b.x, b.y)
    }

    pub fn head_direction(&self) -> (r: Direction)
        ensures
            r == self.heading(),
    {
        self.direction
    }

    /// The cells, head first.
    pub fn body(&self) -> (r: Vec<Block>)
        ensures
            r@ == self.cells(),
    {
        self.body.clone()
    }

    pub fn len(&self) -> (r: usize)
        ensures
            r == self.cells().len(),
    {
        self.body.len()
    }

    /// Where the head would go on a move with the given turn request; the
    /// snake does not change.
    pub fn next_head(&self, requested: Option<Direction>) -> (r: (i32, i32))
        requires
            self.wf(),
            self.head_in_range(),
        ensures
            r == (self.next_head_spec(requested).x, self.next_head_spec(requested).y),
    {
        let b = self.next_block(requested);
        (b.x, b.y)
    }

    fn next_block(&self, requested: Option<Direction>) -> (r: Block)
        requires
            self.wf(),
            self.head_in_range(),
        ensures
            r == self.next_head_spec(requested),
    {
        let dir = match requested {
            Some(d) => if d == self.direction.opposite() {
                self.direction
            } else {
                d
            },
            None => self.direction,
        };
        let h = self.body[0];
        match dir {
            Direction::Up => Block { x: h.x, y: h.y - 1 },
            Direction::Down => Block { x: h.x, y: h.y + 1 },
            Direction::Left => Block { x: h.x - 1, y: h.y },
            Direction::Right => Block { x: h.x + 1, y: h.y },
        }
    }

    /// Moves one cell: turns unless the request reverses the heading, pushes
    /// the new head and releases the last cell. The length is kept.
    pub fn move_forward(&mut self, requested: Option<Direction>)
        requires
            old(self).wf(),
            old(self).head_in_range(),
            !old(self).cells().contains(old(self).next_head_spec(requested)),
        ensures
            final(self).wf(),
            Snake::advanced(*old(self), *final(self), requested),
            final(self).cells().len() == old(self).cells().len(),
    {
        let ghost pre = *self;
        let next = self.next_block(requested);
        match requested {
            Some(d) => if d != self.direction.opposite() {
                self.direction = d;
            },
            None => {},
        }
        self.body.insert(0, next);
        let removed = self.body.pop();
        self.tail = removed;
        proof {
            let old_cells = pre.cells();
            assert(self.cells() =~= seq![next] + old_cells.drop_last());
            assert(removed == Some(old_cells.last()));
            assert forall|i: int, j: int|
                0 <= i < j < self.cells().len() implies self.cells()[i] != self.cells()[j] by {
                if i > 0 {
                    assert(self.cells()[i] == old_cells[i - 1]);
                    assert(self.cells()[j] == old_cells[j - 1]);
                } else {
                    assert(old_cells.contains(self.cells()[j]));
                }
            }
            assert forall|k: int| 0 <= k < self.cells().len() implies self.cells()[k] != old_cells.last() by {
                if k > 0 {
                    assert(self.cells()[k] == old_cells[k - 1]);
                } else {
                    assert(old_cells.contains(old_cells.last()));
                }
            }
        }
    }

    /// Puts the cell released by the last move back at the tail, growing the
    /// snake by one; does nothing when no cell is held.
    pub fn restore_tail(&mut self)
        requires
            old(self).wf(),
        ensures
            final(self).wf(),
            Snake::regrown(*old(self), *final(self)),
            old(self).released() is Some ==> final(self).cells().len() == old(self).cells().len() + 1,
            old(self).released() is None ==> final(self).cells() == old(self).cells(),
    {
        match self.tail {
            Some(t) => {
                self.body.push(t);
            },
            None => {},
        }
        self.tail = None;
    }

    /// Whether `(x, y)` is any cell of the snake (the whole body, not only
    /// the tail).
    pub fn overlap_tail(&self, x: i32, y: i32) -> (r: bool)
        ensures
            r == self.occupies(x, y),
    {
        let mut i: usize = 0;
        while i < self.body.len()
            invariant
                i <= self.body@.len(),
                forall|k: int| 0 <= k < i ==> self.body@[k] != (Block { x: x, y: y }),
            decreases self.body@.len() - i,
        {
            let b = self.body[i];
            if b.x == x && b.y == y {
                assert(self.cells()[i as int] == (Block { x: x, y: y }));
                return true;
            }
            i = i + 1;
        }
        false
    }
}

/// A move keeps the length, and a move followed by regrowing the released
/// cell makes the snake exactly one cell longer.
pub proof fn lemma_move_then_grow(s0: Snake, s1: Snake, s2: Snake, requested: Option<Direction>)
    requires
        s0.wf(),
        Snake::advanced(s0, s1, requested),
        Snake::regrown(s1, s2),
    ensures
        s1.cells().len() == s0.cells().len(),
        s2.cells().len() == s0.cells().len() + 1,
{
}

} // verus!
