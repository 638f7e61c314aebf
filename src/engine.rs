use vstd::prelude::*;

use crate::entity::{
    border_direction, bounced, collides, collision_point, initial_ball, initial_racket,
    with_direction, Ball, GameState, Racket, Side, SPEED_INCREMENT,
};
use crate::geometry::{dx, dy, Direction};
use crate::{fits_i32, WINDOW_WIDTH};

verus! {

/// An input from the player or the window.
#[derive(Clone, Copy, Debug, PartialEq, Eq, Structural)]
pub enum Input {
    /// The window was closed.
    Quit,
    Escape,
    Up,
    Down,
    Space,
    /// Anything else, which the game ignores.
    Other,
}

/// What wakes the game up: a tick of its clock, or an input.
#[derive(Clone, Copy, Debug, PartialEq, Eq, Structural)]
pub enum GameEvent {
    Tick,
    Input(Input),
}

/// Where a match stands.
#[derive(Clone, Copy, Debug, PartialEq, Eq, Structural)]
pub enum Phase {
    /// Events are being handled.
    Playing,
    /// A fresh match is to be set up.
    Restarting,
    /// The program is to end.
    Stopped,
}

/// The ball after a check against one racket whose outward direction is `base`.
pub open spec fn after_racket(b: Ball, r: Racket, base: Direction) -> Ball {
    if collides(b, r) {
        bounced(b, collision_point(r, b), base)
    } else {
        b
    }
}

/// The ball after the checks of one tick: left racket, right racket, ceiling, floor.
pub open spec fn collided_ball(gs: GameState) -> Ball {
    let b = after_racket(after_racket(gs.ball, gs.racket_1, Direction::EAST), gs.racket_2, Direction::WEST);
    with_direction(b, border_direction(b))
}

/// The ball moved one step along its direction.
pub open spec fn moved(b: Ball) -> Ball {
    Ball {
        pos_x: (b.pos_x + dx(b.direction) * b.speed) as i32,
        pos_y: (b.pos_y + dy(b.direction) * b.speed) as i32,
        ..b
    }
}

/// The computer's racket after it follows the vertical part of `d`.
pub open spec fn cpu_moved(r: Racket, d: Direction) -> Racket {
    Racket { pos_y: (r.pos_y + dy(d) * r.speed) as i32, ..r }
}

/// The state after one tick: collisions, the ball's move, the computer's move.
pub open spec fn ticked(gs: GameState) -> GameState {
    let b = moved(collided_ball(gs));
    GameState { ball: b, racket_2: cpu_moved(gs.racket_2, b.direction), ..gs }
}

/// The state after an input.
pub open spec fn key_handled(gs: GameState, input: Input) -> GameState {
    match input {
        Input::Quit | Input::Escape => GameState { is_game_over: true, ..gs },
        Input::Up => GameState {
            racket_1: Racket { pos_y: (gs.racket_1.pos_y - gs.racket_1.speed) as i32, ..gs.racket_1 },
            ..gs
        },
        Input::Down => GameState {
            racket_1: Racket { pos_y: (gs.racket_1.pos_y + gs.racket_1.speed) as i32, ..gs.racket_1 },
            ..gs
        },
        Input::Space => GameState { is_game_restarted: true, ..gs },
        Input::Other => gs,
    }
}

/// Who scores in this state, if anyone: the right player when the ball has
/// left on the left, the left player when it has left on the right.
pub open spec fn scorer(gs: GameState) -> Option<Side> {
    if gs.ball.pos_x < 0 {
        Some(Side::Right)
    } else if gs.ball.pos_x > WINDOW_WIDTH {
        Some(Side::Left)
    } else {
        None
    }
}

/// The state after a point is checked for: the scorer gains one point and
/// the ball and rackets go back to their starting places.
pub open spec fn scored(gs: GameState) -> GameState {
    match scorer(gs) {
        Some(side) => GameState {
            ball: initial_ball(),
            racket_1: initial_racket(Side::Left),
            racket_2: initial_racket(Side::Right),
            score_p1: if side == Side::Left { (gs.score_p1 + 1) as i32 } else { gs.score_p1 },
            score_p2: if side == Side::Right { (gs.score_p2 + 1) as i32 } else { gs.score_p2 },
            ..gs
        },
        None => gs,
    }
}

/// The state after an event, before a point is checked for.
pub open spec fn handled(gs: GameState, event: GameEvent) -> GameState {
    match event {
        GameEvent::Tick => ticked(gs),
        GameEvent::Input(i) => key_handled(gs, i),
    }
}

/// The state after an event and, after a tick only, the check for a point.
pub open spec fn stepped(gs: GameState, event: GameEvent) -> GameState {
    match event {
        GameEvent::Tick => scored(ticked(gs)),
        GameEvent::Input(i) => key_handled(gs, i),
    }
}

/// Who scores on an event: only a tick can end a rally.
pub open spec fn step_scorer(gs: GameState, event: GameEvent) -> Option<Side> {
    match event {
        GameEvent::Tick => scorer(ticked(gs)),
        GameEvent::Input(_) => None,
    }
}

/// How many rackets the ball touches: each one bounces it once.
pub open spec fn bounces(gs: GameState) -> int {
    (if collides(gs.ball, gs.racket_1) { 1int } else { 0int }) + (if collides(gs.ball, gs.racket_2) { 1int } else { 0int })
}

/// Whether the ball's speed stays inside `i32` through this tick's bounces.
pub open spec fn collisions_fit(gs: GameState) -> bool {
    gs.ball.speed + SPEED_INCREMENT * bounces(gs) <= i32::MAX
}

/// Whether the ball's next position stays inside `i32`.
pub open spec fn move_fits(b: Ball) -> bool {
    &&& fits_i32(b.pos_x + dx(b.direction) * b.speed)
    &&& fits_i32(b.pos_y + dy(b.direction) * b.speed)
}

/// Whether the computer's racket stays inside `i32` as it follows `d`.
pub open spec fn cpu_fits(r: Racket, d: Direction) -> bool {
    fits_i32(r.pos_y + dy(d) * r.speed)
}

/// Whether every value of a tick stays inside `i32`.
pub open spec fn tick_fits(gs: GameState) -> bool {
    &&& collisions_fit(gs)
    &&& move_fits(collided_ball(gs))
    &&& cpu_fits(gs.racket_2, collided_ball(gs).direction)
}

/// Whether the score of the side that scores, if any, stays inside `i32`.
pub open spec fn score_fits(gs: GameState) -> bool {
    &&& scorer(gs) == Some(Side::Left) ==> gs.score_p1 < i32::MAX
    &&& scorer(gs) == Some(Side::Right) ==> gs.score_p2 < i32::MAX
}

/// Whether an input keeps every value inside `i32`.
pub open spec fn input_fits(gs: GameState, input: Input) -> bool {
    match input {
        Input::Up => fits_i32(gs.racket_1.pos_y - gs.racket_1.speed),
        Input::Down => fits_i32(gs.racket_1.pos_y + gs.racket_1.speed),
        _ => true,
    }
}

/// Whether an event can be handled with every value staying inside `i32`.
pub open spec fn can_handle(gs: GameState, event: GameEvent) -> bool {
    match event {
        GameEvent::Tick => tick_fits(gs),
        GameEvent::Input(i) => input_fits(gs, i),
    }
}

/// Whether an event can be handled, and after a tick a point counted, with
/// every value staying inside `i32`.
pub open spec fn can_step(gs: GameState, event: GameEvent) -> bool {
    &&& can_handle(gs, event)
    &&& event == GameEvent::Tick ==> score_fits(ticked(gs))
}

/// Where the match stands: a requested restart comes before game over.
pub open spec fn phase_of(gs: GameState) -> Phase {
    if gs.is_game_restarted {
        Phase::Restarting
    } else if gs.is_game_over {
        Phase::Stopped
    } else {
        Phase::Playing
    }
}

/// Points the ball away from a racket it struck, tilted by where it struck
/// (`collision_point`, positive below the racket's center), and speeds it up.
pub fn adjust_ball_direction(ball: &mut Ball, collision_point: i64, base_direction: Direction)
    requires
        old(ball).speed + SPEED_INCREMENT <= i32::MAX,
    ensures
        *final(ball) == bounced(*old(ball), collision_point as int, base_direction),
{
    ball.direction = base_direction.biased_by(collision_point);
    ball.increase_speed();
}

/// Resolves the ball's collisions of one tick, in order: the left racket,
/// the right racket, the ceiling, the floor.
pub fn handle_collisions(gs: &mut GameState)
    requires
        collisions_fit(*old(gs)),
    ensures
        *final(gs) == (GameState { ball: collided_ball(*old(gs)), ..*old(gs) }),
        final(gs).ball.speed == old(gs).ball.speed + SPEED_INCREMENT * bounces(*old(gs)),
{
    if gs.ball.has_collision_with(&gs.racket_1) {
        let cp = gs.racket_1.collision_point_with(&gs.ball);
        adjust_ball_direction(&mut gs.ball, cp, Direction::EAST);
    }
    if gs.ball.has_collision_with(&gs.racket_2) {
        let cp = gs.racket_2.collision_point_with(&gs.ball);
        adjust_ball_direction(&mut gs.ball, cp, Direction::WEST);
    }
    gs.ball.reflect_off_borders();
}

/// Moves the computer's racket with the ball: down while the ball heads
/// south, up while it heads north, not at all otherwise.
pub fn update_cpu_racket(gs: &mut GameState)
    requires
        dy(old(gs).ball.direction) == 1 ==> fits_i32(old(gs).racket_2.pos_y + old(gs).racket_2.speed),
        dy(old(gs).ball.direction) == -1 ==> fits_i32(old(gs).racket_2.pos_y - old(gs).racket_2.speed),
    ensures
        *final(gs) == (GameState { racket_2: cpu_moved(old(gs).racket_2, old(gs).ball.direction), ..*old(gs) }),
{
    let sy = gs.ball.direction.step_y();
    if sy > 0 {
        gs.racket_2.move_down();
    } else if sy < 0 {
        gs.racket_2.move_up();
    }
}

/// Counts a point when the ball has left the field on the left or the right,
/// and puts the ball and rackets back; returns the side that scored.
pub fn handle_ball_out_of_border(gs: &mut GameState) -> (r: Option<Side>)
    requires
        score_fits(*old(gs)),
    ensures
        r == scorer(*old(gs)),
        *final(gs) == scored(*old(gs)),
{
    if gs.ball.pos_x < 0 {
        gs.score_p2 = gs.score_p2 + 1;
        gs.reset_positions();
        Some(Side::Right)
    } else if gs.ball.pos_x > WINDOW_WIDTH as i32 {
        gs.score_p1 = gs.score_p1 + 1;
        gs.reset_positions();
        Some(Side::Left)
    } else {
        None
    }
}

/// Applies an input: quit or escape ends the game, up and down move the
/// player's racket, space asks for a fresh match.
pub fn handle_key_events(gs: &mut GameState, input: &Input)
    requires
        *input == Input::Up ==> fits_i32(old(gs).racket_1.pos_y - old(gs).racket_1.speed),
        *input == Input::Down ==> fits_i32(old(gs).racket_1.pos_y + old(gs).racket_1.speed),
    ensures
        *final(gs) == key_handled(*old(gs), *input),
{
    match input {
        Input::Quit | Input::Escape => {
            gs.is_game_over = true;
        },
        Input::Up => {
            gs.racket_1.move_up();
        },
        Input::Down => {
            gs.racket_1.move_down();
        },
        Input::Space => {
            gs.is_game_restarted = true;
        },
        Input::Other => {},
    }
}

/// Advances the game by one tick: collisions, then the ball's move, then the
/// computer's racket.
pub fn tick(gs: &mut GameState)
    requires
        tick_fits(*old(gs)),
    ensures
        *final(gs) == ticked(*old(gs)),
{
    handle_collisions(gs);
    gs.ball.update_position();
    proof {
        lemma_unit_mul(dy(gs.ball.direction), gs.racket_2.speed as int);
    }
    update_cpu_racket(gs);
}

/// Handles one event: a tick advances the game, an input is applied.
/// Neither counts a point.
pub fn handle_game_events(gs: &mut GameState, event: &GameEvent)
    requires
        can_handle(*old(gs), *event),
    ensures
        *final(gs) == handled(*old(gs), *event),
{
    match event {
        GameEvent::Tick => tick(gs),
        GameEvent::Input(i) => handle_key_events(gs, i),
    }
}

/// Handles one event and, after a tick, counts a point if the ball has left
/// the field; returns the side that scored.
pub fn step(gs: &mut GameState, event: &GameEvent) -> (r: Option<Side>)
    requires
        can_step(*old(gs), *event),
    ensures
        r == step_scorer(*old(gs), *event),
        *final(gs) == stepped(*old(gs), *event),
{
    handle_game_events(gs, event);
    match event {
        GameEvent::Tick => handle_ball_out_of_border(gs),
        GameEvent::Input(_) => None,
    }
}

/// A unit step times a value is the value, its negation or zero.
proof fn lemma_unit_mul(s: int, v: int)
    ensures
        s == 1 ==> s * v == v,
        s == -1 ==> s * v == -v,
        s == 0 ==> s * v == 0,
{
    assert(s == -1 ==> s * v == -v) by (nonlinear_arith);
}

/// Whether `v + s * by` is representable as an `i32`, for a unit step `s`.
fn offset_fits(v: i32, s: i32, by: i32) -> (r: bool)
    requires
        -1 <= s <= 1,
    ensures
        r == fits_i32(v + s * by),
{
    proof {
        lemma_unit_mul(s as int, by as int);
    }
    let n: i64 = if s > 0 {
        v as i64 + by as i64
    } else if s < 0 {
        v as i64 - by as i64
    } else {
        v as i64
    };
    i32::MIN as i64 <= n && n <= i32::MAX as i64
}

impl GameState {
    /// Whether `step` may be called with this event.
    pub fn can_step(&self, event: &GameEvent) -> (r: bool)
        ensures
            r == can_step(*self, *event),
    {
        match event {
            GameEvent::Tick => {
                let k: i64 = (if self.ball.has_collision_with(&self.racket_1) { 1 } else { 0 }) + (
                if self.ball.has_collision_with(&self.racket_2) {
                    1
                } else {
                    0
                });
                if self.ball.speed as i64 + SPEED_INCREMENT as i64 * k > i32::MAX as i64 {
                    return false;
                }
                let mut g = *self;
                handle_collisions(&mut g);
                if !offset_fits(g.ball.pos_x, g.ball.direction.step_x(), g.ball.speed)
                    || !offset_fits(g.ball.pos_y, g.ball.direction.step_y(), g.ball.speed)
                    || !offset_fits(g.racket_2.pos_y, g.ball.direction.step_y(), g.racket_2.speed) {
                    return false;
                }
                g.ball.update_position();
                proof {
                    lemma_unit_mul(dy(g.ball.direction), g.racket_2.speed as int);
                }
                update_cpu_racket(&mut g);
                if g.ball.pos_x < 0 {
                    self.score_p2 < i32::MAX
                } else if g.ball.pos_x > WINDOW_WIDTH as i32 {
                    self.score_p1 < i32::MAX
                } else {
                    true
                }
            },
            GameEvent::Input(Input::Up) => offset_fits(self.racket_1.pos_y, -1, self.racket_1.speed),
            GameEvent::Input(Input::Down) => offset_fits(self.racket_1.pos_y, 1, self.racket_1.speed),
            GameEvent::Input(_) => true,
        }
    }

    /// Where the match stands: a requested restart comes before game over.
    pub fn phase(&self) -> (p: Phase)
        ensures
            p == phase_of(*self),
    {
        if self.is_game_restarted {
            Phase::Restarting
        } else if self.is_game_over {
            Phase::Stopped
        } else {
            Phase::Playing
        }
    }
}

} // verus!
