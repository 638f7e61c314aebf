use vstd::prelude::*;

use crate::geometry::{biased, dx, dy, northward, southward, Color, Direction};
use crate::{fits_i32, SCREEN_MARGIN, WINDOW_HEIGHT, WINDOW_WIDTH};

verus! {

/// Radius of the ball.
pub const BALL_RADIUS: u32 = 10;

/// Speed of the ball at the start of each rally.
pub const BALL_SPEED: i32 = 5;

/// What each racket bounce adds to the ball's speed.
pub const SPEED_INCREMENT: i32 = 1;

/// Width of a racket.
pub const RACKET_WIDTH: u32 = 10;

/// Height of a racket.
pub const RACKET_HEIGHT: u32 = 60;

/// Vertical distance a racket covers in one move.
pub const RACKET_SPEED: i32 = 10;

/// The ball: its center, radius, speed and direction.
#[derive(Clone, Copy, Debug, PartialEq, Eq, Structural)]
pub struct Ball {
    pub pos_x: i32,
    pub pos_y: i32,
    pub radius: u32,
    pub base_speed: i32,
    pub speed: i32,
    pub direction: Direction,
    pub color: Color,
}

/// Which edge of the field a racket defends.
#[derive(Clone, Copy, Debug, PartialEq, Eq, Structural)]
pub enum Side {
    Left,
    Right,
}

/// A racket: the top-left corner of its rectangle, its size and speed.
#[derive(Clone, Copy, Debug, PartialEq, Eq, Structural)]
pub struct Racket {
    pub pos_x: i32,
    pub pos_y: i32,
    pub width: u32,
    pub height: u32,
    pub speed: i32,
    pub color: Color,
    pub side: Side,
}

/// The whole state of a match.
#[derive(Clone, Copy, Debug, PartialEq, Eq, Structural)]
pub struct GameState {
    pub ball: Ball,
    /// The human player's racket, on the left.
    pub racket_1: Racket,
    /// The computer's racket, on the right.
    pub racket_2: Racket,
    pub score_p1: i32,
    pub score_p2: i32,
    pub is_game_over: bool,
    pub is_game_restarted: bool,
}

/// The ball as a rally starts: centered, heading south-east at base speed.
pub open spec fn initial_ball() -> Ball {
    Ball {
        pos_x: (WINDOW_WIDTH / 2) as i32,
        pos_y: (WINDOW_HEIGHT / 2) as i32,
        radius: BALL_RADIUS,
        base_speed: BALL_SPEED,
        speed: BALL_SPEED,
        direction: Direction::SOUTHEAST,
        color: Color { r: 255, g: 255, b: 255, a: 255 },
    }
}

/// A racket as a rally starts: at its margin, vertically centered.
pub open spec fn initial_racket(side: Side) -> Racket {
    Racket {
        pos_x: match side {
            Side::Left => SCREEN_MARGIN,
            Side::Right => (WINDOW_WIDTH - SCREEN_MARGIN - RACKET_WIDTH) as i32,
        },
        pos_y: (WINDOW_HEIGHT / 2 - RACKET_HEIGHT / 2) as i32,
        width: RACKET_WIDTH,
        height: RACKET_HEIGHT,
        speed: RACKET_SPEED,
        color: Color { r: 255, g: 255, b: 255, a: 255 },
        side,
    }
}

/// Whether the ball's bounding square overlaps the racket's rectangle.
pub open spec fn collides(b: Ball, r: Racket) -> bool {
    &&& b.pos_x - b.radius <= r.pos_x + r.width
    &&& b.pos_x + b.radius >= r.pos_x
    &&& b.pos_y - b.radius <= r.pos_y + r.height
    &&& b.pos_y + b.radius >= r.pos_y
}

/// Vertical center of a racket.
pub open spec fn center_y(r: Racket) -> int {
    r.pos_y + r.height / 2
}

/// Where the ball meets the racket, relative to the racket's vertical center:
/// positive below it, negative above it.
pub open spec fn collision_point(r: Racket, b: Ball) -> int {
    b.pos_y - center_y(r)
}

/// Whether the ball's top edge has reached the top of the field.
pub open spec fn hits_ceiling(b: Ball) -> bool {
    b.pos_y - b.radius <= 0
}

/// Whether the ball's bottom edge has reached the bottom of the field.
pub open spec fn hits_floor(b: Ball) -> bool {
    b.pos_y + b.radius >= WINDOW_HEIGHT
}

/// The ball's direction after the ceiling and then the floor are checked.
pub open spec fn border_direction(b: Ball) -> Direction {
    let d1 = if hits_ceiling(b) { southward(b.direction) } else { b.direction };
    if hits_floor(b) { northward(d1) } else { d1 }
}

/// The ball with another direction.
pub open spec fn with_direction(b: Ball, d: Direction) -> Ball {
    Ball { direction: d, ..b }
}

/// The ball after one bounce off a racket whose outward direction is `base`.
pub open spec fn bounced(b: Ball, offset: int, base: Direction) -> Ball {
    Ball { direction: biased(base, offset), speed: (b.speed + SPEED_INCREMENT) as i32, ..b }
}

impl Ball {
    /// The ball as a rally starts.
    pub fn new() -> (b: Ball)
        ensures
            b == initial_ball(),
    {
        Ball {
            pos_x: (WINDOW_WIDTH / 2) as i32,
            pos_y: (WINDOW_HEIGHT / 2) as i32,
            radius: BALL_RADIUS,
            base_speed: BALL_SPEED,
            speed: BALL_SPEED,
            direction: Direction::SOUTHEAST,
            color: Color::white(),
        }
    }

    /// Moves the ball by its speed along each axis its direction has.
    pub fn update_position(&mut self)
        requires
            fits_i32(old(self).pos_x + dx(old(self).direction) * old(self).speed),
            fits_i32(old(self).pos_y + dy(old(self).direction) * old(self).speed),
        ensures
            *final(self) == (Ball {
                pos_x: (old(self).pos_x + dx(old(self).direction) * old(self).speed) as i32,
                pos_y: (old(self).pos_y + dy(old(self).direction) * old(self).speed) as i32,
                ..*old(self)
            }),
    {
        let sx = self.direction.step_x();
        let sy = self.direction.step_y();
        if sx > 0 {
            self.pos_x = self.pos_x + self.speed;
        } else if sx < 0 {
            self.pos_x = self.pos_x - self.speed;
        }
        if sy > 0 {
            self.pos_y = self.pos_y + self.speed;
        } else if sy < 0 {
            self.pos_y = self.pos_y - self.speed;
        }
    }

    /// Adds the fixed increment to the ball's speed.
    pub fn increase_speed(&mut self)
        requires
            old(self).speed + SPEED_INCREMENT <= i32::MAX,
        ensures
            *final(self) == (Ball { speed: (old(self).speed + SPEED_INCREMENT) as i32, ..*old(self) }),
    {
        self.speed = self.speed + SPEED_INCREMENT;
    }

    /// Whether the ball's bounding square overlaps the racket.
    pub fn has_collision_with(&self, racket: &Racket) -> (r: bool)
        ensures
            r == collides(*self, *racket),
    {
        let bx = self.pos_x as i64;
        let by = self.pos_y as i64;
        let br = self.radius as i64;
        let rx = racket.pos_x as i64;
        let ry = racket.pos_y as i64;
        bx - br <= rx + racket.width as i64 && bx + br >= rx && by - br <= ry
            + racket.height as i64 && by + br >= ry
    }

    /// Whether the ball's top edge has reached the top of the field.
    pub fn has_collision_with_ceiling(&self) -> (r: bool)
        ensures
            r == hits_ceiling(*self),
    {
        self.pos_y as i64 - self.radius as i64 <= 0
    }

    /// Whether the ball's bottom edge has reached the bottom of the field.
    pub fn has_collision_with_floor(&self) -> (r: bool)
        ensures
            r == hits_floor(*self),
    {
        self.pos_y as i64 + self.radius as i64 >= WINDOW_HEIGHT as i64
    }

    /// Turns the ball south off the ceiling and north off the floor; only
    /// the vertical component of its direction changes, never its speed.
    pub fn reflect_off_borders(&mut self)
        ensures
            *final(self) == with_direction(*old(self), border_direction(*old(self))),
    {
        if self.has_collision_with_ceiling() {
            self.direction = self.direction.to_south();
        }
        if self.has_collision_with_floor() {
            self.direction = self.direction.to_north();
        }
    }
}

impl Racket {
    /// A racket at its margin of the field, vertically centered.
    pub fn new(side: Side) -> (r: Racket)
        ensures
            r == initial_racket(side),
    {
        let pos_x = match side {
            Side::Left => SCREEN_MARGIN,
            Side::Right => WINDOW_WIDTH as i32 - SCREEN_MARGIN - RACKET_WIDTH as i32,
        };
        Racket {
            pos_x,
            pos_y: (WINDOW_HEIGHT / 2 - RACKET_HEIGHT / 2) as i32,
            width: RACKET_WIDTH,
            height: RACKET_HEIGHT,
            speed: RACKET_SPEED,
            color: Color::white(),
            side,
        }
    }

    /// Moves the racket up by its speed; nothing holds it inside the field.
    pub fn move_up(&mut self)
        requires
            fits_i32(old(self).pos_y - old(self).speed),
        ensures
            *final(self) == (Racket { pos_y: (old(self).pos_y - old(self).speed) as i32, ..*old(self) }),
    {
        self.pos_y = self.pos_y - self.speed;
    }

    /// Moves the racket down by its speed; nothing holds it inside the field.
    pub fn move_down(&mut self)
        requires
            fits_i32(old(self).pos_y + old(self).speed),
        ensures
            *final(self) == (Racket { pos_y: (old(self).pos_y + old(self).speed) as i32, ..*old(self) }),
    {
        self.pos_y = self.pos_y + self.speed;
    }

    /// Where the ball meets the racket, relative to its vertical center:
    /// zero at the center, positive below it, negative above it.
    pub fn collision_point_with(&self, ball: &Ball) -> (r: i64)
        ensures
            r == collision_point(*self, *ball),
    {
        ball.pos_y as i64 - (self.pos_y as i64 + (self.height / 2) as i64)
    }
}

impl GameState {
    /// A fresh match: both scores zero, everything in its starting place.
    pub fn new() -> (gs: GameState)
        ensures
            gs.ball == initial_ball(),
            gs.racket_1 == initial_racket(Side::Left),
            gs.racket_2 == initial_racket(Side::Right),
            gs.score_p1 == 0,
            gs.score_p2 == 0,
            !gs.is_game_over,
            !gs.is_game_restarted,
    {
        GameState {
            ball: Ball::new(),
            racket_1: Racket::new(Side::Left),
            racket_2: Racket::new(Side::Right),
            score_p1: 0,
            score_p2: 0,
            is_game_over: false,
            is_game_restarted: false,
        }
    }

    /// Puts the ball and both rackets back in their starting places; the
    /// scores and flags are kept.
    pub fn reset_positions(&mut self)
        ensures
            *final(self) == (GameState {
                ball: initial_ball(),
                racket_1: initial_racket(Side::Left),
                racket_2: initial_racket(Side::Right),
                ..*old(self)
            }),
    {
        self.ball = Ball::new();
        self.racket_1 = Racket::new(Side::Left);
        self.racket_2 = Racket::new(Side::Right);
    }
}

} // verus!
