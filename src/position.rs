use vstd::prelude::*;

verus! {

/// `n + 1`, staying at `usize::MAX` once there.
pub open spec fn inc(n: usize) -> usize {
    if n < usize::MAX {
        (n + 1) as usize
    } else {
        n
    }
}

/// `n - 1`, staying at 0 once there.
pub open spec fn dec(n: usize) -> usize {
    if n > 0 {
        (n - 1) as usize
    } else {
        0
    }
}

/// A direction in which the cursor moves by one step.
#[derive(Clone, Copy, Debug, PartialEq, Eq, Structural)]
pub enum Direction {
    Left,
    Right,
    Up,
    Down,
}

/// A cursor coordinate: `x` is the column, `y` the row.
#[derive(Clone, Copy, Debug, Default, PartialEq, Eq, Structural)]
pub struct Position {
    pub x: usize,
    pub y: usize,
}

/// `p` moved one step towards `dir`: left and up stop at 0, right and down have no bound
/// short of the integer type's.
pub open spec fn moved(p: Position, dir: Direction) -> Position {
    match dir {
        Direction::Left => Position { x: dec(p.x), y: p.y },
        Direction::Right => Position { x: inc(p.x), y: p.y },
        Direction::Up => Position { x: p.x, y: dec(p.y) },
        Direction::Down => Position { x: p.x, y: inc(p.y) },
    }
}

impl Position {
    /// Whether the row of this position lies before `row`, i.e. indexes an existing row
    /// of a buffer with `row` rows.
    pub fn above(&self, row: usize) -> (r: bool)
        ensures
            r == (self.y < row),
    {
        self.y < row
    }

    /// Moves one step towards `dir`.
    pub fn step(&mut self, dir: Direction)
        ensures
            *final(self) == moved(*old(self), dir),
    {
        match dir {
            Direction::Left => self.x = self.x.saturating_sub(1),
            Direction::Right => self.x = self.x.saturating_add(1),
            Direction::Up => self.y = self.y.saturating_sub(1),
            Direction::Down => self.y = self.y.saturating_add(1),
        }
    }
}

} // verus!
