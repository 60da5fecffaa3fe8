use vstd::prelude::*;
use crate::direction::Direction;
use crate::point::{Point, can_transform, transformed};

verus! {

/// Two points are grid-adjacent when they are one cell apart along exactly
/// one axis (Manhattan distance 1, axis-aligned).
pub open spec fn grid_adjacent(a: Point, b: Point) -> bool {
    (a.x == b.x && (a.y + 1 == b.y || b.y + 1 == a.y)) || (a.y == b.y && (a.x + 1 == b.x
        || b.x + 1 == a.x))
}

/// Every neighbouring pair of body points is grid-adjacent.
pub open spec fn adjacent_all(body: Seq<Point>) -> bool {
    forall|i: int| 0 <= i < body.len() - 1 ==> grid_adjacent(#[trigger] body[i], body[i + 1])
}

/// The body that one movement step produces: a new head one cell along
/// `direction` is prepended and, unless the snake is digesting, the tail
/// segment is dropped.
pub open spec fn slither_view(body: Seq<Point>, direction: Direction, digesting: bool) -> Seq<
    Point,
> {
    if digesting {
        seq![transformed(body[0], direction, 1)] + body
    } else {
        seq![transformed(body[0], direction, 1)] + body.drop_last()
    }
}

/// The snake: an ordered body of points from head (index 0) to tail (last
/// index), the current heading, and a flag set by `grow` that makes the next
/// `slither` keep the tail segment.
#[derive(Debug)]
pub struct Snake {
    body: Vec<Point>,
    direction: Direction,
    digesting: bool,
}

impl View for Snake {
    type V = Seq<Point>;

    closed spec fn view(&self) -> Seq<Point> {
        self.body@
    }
}

impl Snake {
    pub closed spec fn direction_spec(self) -> Direction {
        self.direction
    }

    pub closed spec fn digesting_spec(self) -> bool {
        self.digesting
    }

    /// The snake's structural invariant: a non-empty body whose neighbouring
    /// points are grid-adjacent.
    pub open spec fn wf(self) -> bool {
        self@.len() >= 1 && adjacent_all(self@)
    }

    /// Builds a straight body of `length` points: the head at `head`, each
    /// further point one cell toward the opposite of `direction`.
    pub fn new(head: Point, length: u16, direction: Direction) -> (r: Snake)
        requires
            length >= 1,
            can_transform(head, direction.opposite_spec(), (length - 1) as u16),
        ensures
            r@.len() == length,
            forall|i: int|
                0 <= i < length ==> #[trigger] r@[i] == transformed(
                    head,
                    direction.opposite_spec(),
                    i as u16,
                ),
            r.direction_spec() == direction,
            !r.digesting_spec(),
            r.wf(),
    {
        let mut body: Vec<Point> = Vec::new();
        let mut i: u16 = 0;
        while i < length
            invariant
                i <= length,
                length >= 1,
                can_transform(head, direction.opposite_spec(), (length - 1) as u16),
                body@.len() == i,
                forall|j: int|
                    0 <= j < i ==> #[trigger] body@[j] == transformed(
                        head,
                        direction.opposite_spec(),
                        j as u16,
                    ),
            decreases length - i,
        {
            let p = head.transform(direction.opposite(), i);
            body.push(p);
            i = i + 1;
        }
        let r = Snake { body, direction, digesting: false };
        proof {
            assert forall|i: int| 0 <= i < r@.len() - 1 implies grid_adjacent(
                #[trigger] r@[i],
                r@[i + 1],
            ) by {
                assert(r@[i] == transformed(head, direction.opposite_spec(), i as u16));
                assert(r@[i + 1] == transformed(head, direction.opposite_spec(), (i + 1) as u16));
            }
        }
        r
    }

    /// The head is always the first body point.
    pub fn get_head_point(&self) -> (r: Point)
        requires
            self@.len() >= 1,
        ensures
            r == self@[0],
    {
        self.body[0]
    }

    /// The body points in head-to-tail order.
    pub fn get_body_points(&self) -> (r: Vec<Point>)
        ensures
            r@ == self@,
    {
        let mut out: Vec<Point> = Vec::new();
        let mut i: usize = 0;
        while i < self.body.len()
            invariant
                i <= self.body@.len(),
                out@.len() == i,
                forall|j: int| 0 <= j < i ==> #[trigger] out@[j] == self.body@[j],
            decreases self.body@.len() - i,
        {
            out.push(self.body[i]);
            i = i + 1;
        }
        proof {
            assert(out@ =~= self@);
        }
        out
    }

    pub fn get_direction(&self) -> (r: Direction)
        ensures
            r == self.direction_spec(),
    {
        self.direction
    }

    /// Sets the heading without validating it; rejecting a reversal or a
    /// no-op turn is the caller's responsibility.
    pub fn set_direction(&mut self, direction: Direction)
        ensures
            final(self)@ == old(self)@,
            final(self).direction_spec() == direction,
            final(self).digesting_spec() == old(self).digesting_spec(),
    {
        self.direction = direction;
    }

    /// Whether `p` lies on any body segment.
    pub fn contains_point(&self, p: &Point) -> (r: bool)
        ensures
            r == self@.contains(*p),
    {
        let mut i: usize = 0;
        while i < self.body.len()
            invariant
                i <= self.body@.len(),
                forall|j: int| 0 <= j < i ==> #[trigger] self.body@[j] != *p,
            decreases self.body@.len() - i,
        {
            if self.body[i] == *p {
                proof {
                    assert(self@[i as int] == *p);
                }
                return true;
            }
            i = i + 1;
        }
        false
    }

    /// Advances the snake one cell along its heading: the new head is
    /// prepended and, unless a preceding `grow` is pending, the tail segment
    /// is dropped, preserving the length.
    pub fn slither(&mut self)
        requires
            old(self)@.len() >= 1,
            can_transform(old(self)@[0], old(self).direction_spec(), 1),
        ensures
            final(self)@ == slither_view(
                old(self)@,
                old(self).direction_spec(),
                old(self).digesting_spec(),
            ),
            final(self)@.len() == old(self)@.len() + if old(self).digesting_spec() {
                1int
            } else {
                0int
            },
            final(self).direction_spec() == old(self).direction_spec(),
            !final(self).digesting_spec(),
            old(self).wf() ==> final(self).wf(),
    {
        let new_head = self.body[0].transform(self.direction, 1);
        self.body.insert(0, new_head);
        if !self.digesting {
            let last: usize = self.body.len() - 1;
            self.body.remove(last);
        } else {
            self.digesting = false;
        }
        proof {
            let b0 = old(self)@;
            let d = old(self).direction_spec();
            assert(self@ =~= slither_view(b0, d, old(self).digesting_spec()));
            if old(self).wf() {
                lemma_slither_keeps_adjacent(b0, d, old(self).digesting_spec());
            }
        }
    }

    /// Marks that the next `slither` must keep the tail segment, so that one
    /// movement step later the body is longer by exactly one.
    pub fn grow(&mut self)
        ensures
            final(self)@ == old(self)@,
            final(self).direction_spec() == old(self).direction_spec(),
            final(self).digesting_spec(),
    {
        self.digesting = true;
    }
}

/// One movement step keeps every neighbouring pair of body points
/// grid-adjacent and never shrinks the body, whether or not a grow is
/// pending.
pub proof fn lemma_slither_keeps_adjacent(body: Seq<Point>, direction: Direction, digesting: bool)
    requires
        body.len() >= 1,
        adjacent_all(body),
        can_transform(body[0], direction, 1),
    ensures
        adjacent_all(slither_view(body, direction, digesting)),
        slither_view(body, direction, digesting).len() >= body.len(),
{
    let s = slither_view(body, direction, digesting);
    assert(grid_adjacent(transformed(body[0], direction, 1), body[0]));
    assert forall|i: int| 0 <= i < s.len() - 1 implies grid_adjacent(#[trigger] s[i], s[i + 1]) by {
        if i >= 1 {
            assert(s[i] == body[i - 1]);
            assert(s[i + 1] == body[i]);
            assert(grid_adjacent(body[i - 1], body[i]));
        }
    }
}

/// Growing then slithering adds exactly one segment and keeps the previous
/// tail point in place, while slithering alone preserves the length.
pub proof fn lemma_grow_then_slither(body: Seq<Point>, direction: Direction)
    requires
        body.len() >= 1,
    ensures
        slither_view(body, direction, true).len() == body.len() + 1,
        slither_view(body, direction, true).last() == body.last(),
        slither_view(body, direction, false).len() == body.len(),
{
}

} // verus!
