use vstd::prelude::*;
use crate::point::Point;

verus! {

/// Whether `q` is the cell directly below `c`.
pub open spec fn neighbor_down(c: Point, q: Point) -> bool {
    q.x == c.x && q.y == c.y + 1
}

/// Whether `q` is the cell directly right of `c`.
pub open spec fn neighbor_right(c: Point, q: Point) -> bool {
    q.y == c.y && q.x == c.x + 1
}

/// Whether `q` is the cell directly above `c`; on the top row, where no
/// cell is above, `c` itself stands in for the comparison.
pub open spec fn neighbor_up(c: Point, q: Point) -> bool {
    if c.y == 0 {
        q == c
    } else {
        q.x == c.x && q.y == c.y - 1
    }
}

/// Whether `q` is the cell directly left of `c`; on the leftmost column,
/// where no cell is to the left, `c` itself stands in for the comparison.
pub open spec fn neighbor_left(c: Point, q: Point) -> bool {
    if c.x == 0 {
        q == c
    } else {
        q.y == c.y && q.x == c.x - 1
    }
}

/// The corner glyph for a body segment at `c` whose predecessor and
/// successor share neither axis.
pub open spec fn corner_symbol(previous: Point, c: Point, next: Point) -> char {
    if (neighbor_down(c, next) && neighbor_right(c, previous)) || (neighbor_down(c, previous)
        && neighbor_right(c, next)) {
        '\u{2554}'
    } else if (neighbor_down(c, next) && neighbor_left(c, previous)) || (neighbor_down(c, previous)
        && neighbor_left(c, next)) {
        '\u{2557}'
    } else if (neighbor_up(c, next) && neighbor_right(c, previous)) || (neighbor_up(c, previous)
        && neighbor_right(c, next)) {
        '\u{255a}'
    } else {
        '\u{255d}'
    }
}

/// The display glyph for a body segment, a deterministic mapping of three
/// consecutive body points: line glyphs where predecessor and successor
/// share an axis, an endpoint glyph for the head (no predecessor) and the
/// tail (no successor), a corner glyph otherwise.
pub open spec fn symbol_spec(previous: Option<Point>, c: Point, next: Option<Point>) -> char {
    match (previous, next) {
        (Some(p), Some(n)) => if p.x == n.x {
            '\u{2551}'
        } else if p.y == n.y {
            '\u{2550}'
        } else {
            corner_symbol(p, c, n)
        },
        (None, Some(_)) => 'O',
        (Some(p), None) => if c.y == p.y {
            '\u{2550}'
        } else {
            '\u{2551}'
        },
        (None, None) => 'O',
    }
}

fn is_down(c: Point, q: Point) -> (r: bool)
    ensures
        r == neighbor_down(c, q),
{
    q.x == c.x && (q.y as u32) == (c.y as u32) + 1
}

fn is_right(c: Point, q: Point) -> (r: bool)
    ensures
        r == neighbor_right(c, q),
{
    q.y == c.y && (q.x as u32) == (c.x as u32) + 1
}

fn is_up(c: Point, q: Point) -> (r: bool)
    ensures
        r == neighbor_up(c, q),
{
    if c.y == 0 {
        q == c
    } else {
        q.x == c.x && q.y == c.y - 1
    }
}

fn is_left(c: Point, q: Point) -> (r: bool)
    ensures
        r == neighbor_left(c, q),
{
    if c.x == 0 {
        q == c
    } else {
        q.y == c.y && q.x == c.x - 1
    }
}

/// The glyph to draw for the body segment at `current`, given its
/// predecessor and successor in the body sequence. A body point standing
/// alone, with no neighbor on either side, has no glyph.
pub fn body_symbol(previous: Option<Point>, current: Point, next: Option<Point>) -> (r: char)
    requires
        previous is Some || next is Some,
    ensures
        r == symbol_spec(previous, current, next),
{
    match (previous, next) {
        (Some(p), Some(n)) => {
            if p.x == n.x {
                '\u{2551}'
            } else if p.y == n.y {
                '\u{2550}'
            } else {
                if (is_down(current, n) && is_right(current, p)) || (is_down(current, p)
                    && is_right(current, n)) {
                    '\u{2554}'
                } else if (is_down(current, n) && is_left(current, p)) || (is_down(current, p)
                    && is_left(current, n)) {
                    '\u{2557}'
                } else if (is_up(current, n) && is_right(current, p)) || (is_up(current, p)
                    && is_right(current, n)) {
                    '\u{255a}'
                } else {
                    '\u{255d}'
                }
            }
        },
        (None, Some(_)) => 'O',
        (Some(p), None) => {
            if current.y == p.y {
                '\u{2550}'
            } else {
                '\u{2551}'
            }
        },
        (None, None) => 'O',
    }
}

} // verus!
