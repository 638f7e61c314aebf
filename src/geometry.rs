use vstd::prelude::*;

verus! {

/// One of the eight compass directions a ball can travel in.
/// Screen coordinates grow to the east (x) and to the south (y).
#[allow(non_camel_case_types)]
#[derive(Clone, Copy, Debug, PartialEq, Eq, Structural)]
pub enum Direction {
    NORTH,
    NORTHEAST,
    EAST,
    SOUTHEAST,
    SOUTH,
    SOUTHWEST,
    WEST,
    NORTHWEST,
}

/// Horizontal component of a direction: -1 (west), 0 or 1 (east).
pub open spec fn dx(d: Direction) -> int {
    match d {
        Direction::NORTHEAST | Direction::EAST | Direction::SOUTHEAST => 1,
        Direction::NORTHWEST | Direction::WEST | Direction::SOUTHWEST => -1,
        _ => 0,
    }
}

/// Vertical component of a direction: -1 (north), 0 or 1 (south).
pub open spec fn dy(d: Direction) -> int {
    match d {
        Direction::SOUTHEAST | Direction::SOUTH | Direction::SOUTHWEST => 1,
        Direction::NORTHEAST | Direction::NORTH | Direction::NORTHWEST => -1,
        _ => 0,
    }
}

/// The direction whose vertical component points south: what a ceiling does.
pub open spec fn southward(d: Direction) -> Direction {
    match d {
        Direction::NORTH => Direction::SOUTH,
        Direction::NORTHEAST => Direction::SOUTHEAST,
        Direction::NORTHWEST => Direction::SOUTHWEST,
        _ => d,
    }
}

/// The direction whose vertical component points north: what a floor does.
pub open spec fn northward(d: Direction) -> Direction {
    match d {
        Direction::SOUTH => Direction::NORTH,
        Direction::SOUTHEAST => Direction::NORTHEAST,
        Direction::SOUTHWEST => Direction::NORTHWEST,
        _ => d,
    }
}

/// Sign of an integer: -1, 0 or 1.
pub open spec fn sign(v: int) -> int {
    if v > 0 {
        1
    } else if v < 0 {
        -1
    } else {
        0
    }
}

/// The direction a ball takes off a racket, given where it struck the racket
/// (`offset`, positive below the racket's center) and the racket's outward
/// direction `base`. Only an east or west base is tilted by the offset.
pub open spec fn biased(base: Direction, offset: int) -> Direction {
    if offset == 0 {
        base
    } else if offset > 0 {
        match base {
            Direction::EAST => Direction::SOUTHEAST,
            Direction::WEST => Direction::SOUTHWEST,
            _ => base,
        }
    } else {
        match base {
            Direction::EAST => Direction::NORTHEAST,
            Direction::WEST => Direction::NORTHWEST,
            _ => base,
        }
    }
}

impl Direction {
    /// Horizontal component of the direction.
    pub fn step_x(&self) -> (r: i32)
        ensures
            r == dx(*self),
    {
        match self {
            Direction::NORTHEAST | Direction::EAST | Direction::SOUTHEAST => 1,
            Direction::NORTHWEST | Direction::WEST | Direction::SOUTHWEST => -1,
            _ => 0,
        }
    }

    /// Vertical component of the direction.
    pub fn step_y(&self) -> (r: i32)
        ensures
            r == dy(*self),
    {
        match self {
            Direction::SOUTHEAST | Direction::SOUTH | Direction::SOUTHWEST => 1,
            Direction::NORTHEAST | Direction::NORTH | Direction::NORTHWEST => -1,
            _ => 0,
        }
    }

    /// The mirror image of a northward direction; any other is kept.
    pub fn to_south(&self) -> (r: Direction)
        ensures
            r == southward(*self),
            dx(r) == dx(*self),
            dy(r) == if dy(*self) == -1 { 1 } else { dy(*self) },
    {
        match self {
            Direction::NORTH => Direction::SOUTH,
            Direction::NORTHEAST => Direction::SOUTHEAST,
            Direction::NORTHWEST => Direction::SOUTHWEST,
            _ => *self,
        }
    }

    /// The mirror image of a southward direction; any other is kept.
    pub fn to_north(&self) -> (r: Direction)
        ensures
            r == northward(*self),
            dx(r) == dx(*self),
            dy(r) == if dy(*self) == 1 { -1 } else { dy(*self) },
    {
        match self {
            Direction::SOUTH => Direction::NORTH,
            Direction::SOUTHEAST => Direction::NORTHEAST,
            Direction::SOUTHWEST => Direction::NORTHWEST,
            _ => *self,
        }
    }

    /// Tilts an outward direction by where a racket was struck.
    pub fn biased_by(&self, offset: i64) -> (r: Direction)
        ensures
            r == biased(*self, offset as int),
    {
        if offset == 0 {
            *self
        } else if offset > 0 {
            match self {
                Direction::EAST => Direction::SOUTHEAST,
                Direction::WEST => Direction::SOUTHWEST,
                _ => *self,
            }
        } else {
            match self {
                Direction::EAST => Direction::NORTHEAST,
                Direction::WEST => Direction::NORTHWEST,
                _ => *self,
            }
        }
    }
}

/// An RGBA color.
#[derive(Clone, Copy, Debug, PartialEq, Eq, Structural)]
pub struct Color {
    pub r: u8,
    pub g: u8,
    pub b: u8,
    pub a: u8,
}

impl Color {
    /// An opaque color from its red, green and blue parts.
    pub fn rgb(r: u8, g: u8, b: u8) -> (c: Color)
        ensures
            c == (Color { r, g, b, a: 255 }),
    {
        Color { r, g, b, a: 255 }
    }

    /// Opaque white.
    pub fn white() -> (c: Color)
        ensures
            c == (Color { r: 255, g: 255, b: 255, a: 255 }),
    {
        Color { r: 255, g: 255, b: 255, a: 255 }
    }

    /// Opaque black.
    pub fn black() -> (c: Color)
        ensures
            c == (Color { r: 0, g: 0, b: 0, a: 255 }),
    {
        Color { r: 0, g: 0, b: 0, a: 255 }
    }
}


} // verus!
