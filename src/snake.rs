use crate::direction::Direction;
use crate::grid::{step, Grid, Point};
use crate::arith::ModuloSigned;
use crate::segment::Segment;
use std::collections::VecDeque;
use vstd::arithmetic::div_mod::lemma_small_mod;
use vstd::prelude::*;

verus! {

/// The snake: its segments, head first, on a grid of fixed size.
#[derive(Debug)]
pub struct Snake {
    segments: VecDeque<Segment>,
    grid: Grid,
}

impl View for Snake {
    type V = Seq<Segment>;

    closed spec fn view(&self) -> Seq<Segment> {
        self.segments@
    }
}

/// Some segment of `s` at index `lo` or later lies on `p`.
pub open spec fn occupied_from(s: Seq<Segment>, lo: int, p: Point) -> bool {
    exists|i: int| lo <= i < s.len() && #[trigger] s[i].position == p
}

/// The segment that a move in direction `d` puts in front of the head.
pub open spec fn next_head(s: Seq<Segment>, g: Grid, d: Direction) -> Segment {
    Segment { position: step(s[0].position, d, g), direction: d }
}

impl Snake {
    /// The grid the snake lives on.
    pub closed spec fn grid_spec(&self) -> Grid {
        self.grid
    }

    /// The snake is never empty and every segment lies on its grid.
    pub open spec fn wf(&self) -> bool {
        &&& self.grid_spec().wf()
        &&& self@.len() > 0
        &&& forall|i: int| 0 <= i < self@.len() ==> self.grid_spec().contains(#[trigger] self@[i].position)
    }

    /// A snake of one segment on `head_coord`, heading right.
    pub fn new(head_coord: Point, grid: Grid) -> (r: Snake)
        requires
            grid.wf(),
            grid.contains(head_coord),
        ensures
            r.wf(),
            r.grid_spec() == grid,
            r@ == seq![Segment { position: head_coord, direction: Direction::Right }],
    {
        let mut segments: VecDeque<Segment> = VecDeque::new();
        segments.push_front(Segment::new(head_coord, Direction::Right));
        Snake { segments, grid }
    }

    pub fn grid(&self) -> (r: Grid)
        ensures
            r == self.grid_spec(),
    {
        self.grid
    }

    /// Number of segments.
    pub fn len(&self) -> (r: usize)
        ensures
            r == self@.len(),
    {
        self.segments.len()
    }

    /// The cells taken, head first.
    pub fn positions(&self) -> (r: Vec<Point>)
        ensures
            r@.len() == self@.len(),
            forall|i: int| 0 <= i < self@.len() ==> #[trigger] r@[i] == self@[i].position,
    {
        let mut r: Vec<Point> = Vec::new();
        let n = self.segments.len();
        let mut i: usize = 0;
        while i < n
            invariant
                n == self@.len(),
                i <= n,
                r@.len() == i,
                forall|j: int| 0 <= j < i ==> #[trigger] r@[j] == self@[j].position,
            decreases n - i,
        {
            r.push(self.segments[i].position);
            i = i + 1;
        }
        r
    }

    /// Moves the snake: `new_head` goes in front and the tail cell is
    /// dropped. `None` only for an empty snake, which is left as it was.
    pub fn compute_next_frame(&mut self, new_head: Segment) -> (r: Option<()>)
        requires
            old(self).wf(),
            old(self).grid_spec().contains(new_head.position),
        ensures
            r == Some(()),
            final(self).wf(),
            final(self).grid_spec() == old(self).grid_spec(),
            final(self)@ == seq![new_head] + old(self)@.drop_last(),
            final(self)@.len() == old(self)@.len(),
    {
        let _ = self.segments.pop_back();
        self.segments.push_front(new_head);
        proof {
            assert forall|i: int| 0 <= i < self@.len() implies
                self.grid_spec().contains(#[trigger] self@[i].position) by {
                if i > 0 {
                    assert(self@[i] == old(self)@[i - 1]);
                }
            }
        }
        Some(())
    }

    /// Grows the snake: `new_head` goes in front and the tail stays.
    pub fn compute_next_frame_with_new(&mut self, new_head: Segment)
        requires
            old(self).wf(),
            old(self).grid_spec().contains(new_head.position),
            old(self)@.len() < usize::MAX,
        ensures
            final(self).wf(),
            final(self).grid_spec() == old(self).grid_spec(),
            final(self)@ == seq![new_head] + old(self)@,
            final(self)@.len() == old(self)@.len() + 1,
    {
        self.segments.push_front(new_head);
        proof {
            assert forall|i: int| 0 <= i < self@.len() implies
                self.grid_spec().contains(#[trigger] self@[i].position) by {
                if i > 0 {
                    assert(self@[i] == old(self)@[i - 1]);
                }
            }
        }
    }

    /// The head segment; `None` only for an empty snake.
    pub fn head(&self) -> (r: Option<&Segment>)
        ensures
            self@.len() == 0 ==> r.is_none(),
            self@.len() > 0 ==> r == Some(&self@[0]),
    {
        if self.segments.len() > 0 {
            Some(&self.segments[0])
        } else {
            None
        }
    }

    /// The head one step further in `new_direction`, wrapped around the
    /// grid's edges and heading that way.
    pub fn compute_next_head(&self, new_direction: Direction) -> (r: Option<Segment>)
        requires
            self.wf(),
        ensures
            r == Some(next_head(self@, self.grid_spec(), new_direction)),
            self.grid_spec().contains(r.unwrap().position),
    {
        let head = self.segments[0].position;
        let w = self.grid.width;
        let h = self.grid.height;
        assert(self.grid_spec().contains(self@[0].position));
        let new_point = match new_direction {
            Direction::Up => Point { x: head.x, y: head.y - 1 },
            Direction::Down => Point { x: head.x, y: head.y + 1 },
            Direction::Left => Point { x: head.x - 1, y: head.y },
            Direction::Right => Point { x: head.x + 1, y: head.y },
        };
        let x = new_point.x.modulo(w);
        let y = new_point.y.modulo(h);
        proof {
            lemma_small_mod(head.x as nat, w as nat);
            lemma_small_mod(head.y as nat, h as nat);
        }
        Some(Segment::new(Point { x, y }, new_direction))
    }

    /// Some segment, the head included, lies on `other`.
    pub fn overlaps(&self, other: &Point) -> (r: bool)
        ensures
            r == occupied_from(self@, 0, *other),
    {
        self.overlaps_from(0, other)
    }

    /// Some segment other than the head lies on `other`.
    pub fn overlaps_body(&self, other: &Point) -> (r: bool)
        ensures
            r == occupied_from(self@, 1, *other),
    {
        self.overlaps_from(1, other)
    }

    fn overlaps_from(&self, lo: usize, other: &Point) -> (r: bool)
        ensures
            r == occupied_from(self@, lo as int, *other),
    {
        let n = self.segments.len();
        let mut i: usize = lo;
        while i < n
            invariant
                n == self@.len(),
                lo <= i,
                forall|j: int| lo <= j < i && j < n ==> #[trigger] self@[j].position != *other,
            decreases n - i,
        {
            if self.segments[i].position == *other {
                return true;
            }
            i = i + 1;
        }
        false
    }

    /// The head lies on `other`; `false` for an empty snake.
    pub fn overlaps_head(&self, other: &Point) -> (r: bool)
        ensures
            r == (self@.len() > 0 && self@[0].position == *other),
    {
        if let Some(head) = self.head() {
            head.position == *other
        } else {
            false
        }
    }

    /// The heading of the head; `None` only for an empty snake.
    pub fn head_direction(&self) -> (r: Option<Direction>)
        ensures
            self@.len() == 0 ==> r.is_none(),
            self@.len() > 0 ==> r == Some(self@[0].direction),
    {
        Some(self.head()?.direction)
    }
}

/// Growing adds exactly one segment and moving keeps the length.
pub proof fn lemma_growth(s: Seq<Segment>, h: Segment)
    requires
        s.len() > 0,
    ensures
        (seq![h] + s).len() == s.len() + 1,
        (seq![h] + s.drop_last()).len() == s.len(),
{
}

} // verus!
