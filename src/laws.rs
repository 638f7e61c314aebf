use vstd::prelude::*;

use crate::engine::{
    after_racket, collided_ball, key_handled, phase_of, step_scorer, stepped, ticked, GameEvent, Input, Phase,
};
use crate::entity::{
    border_direction, center_y, collides, collision_point, hits_ceiling, hits_floor,
    with_direction, Ball, GameState, Racket, Side, SPEED_INCREMENT,
};
use crate::geometry::{dx, dy, sign, Direction};
use crate::WINDOW_HEIGHT;

verus! {

/// The collision point is zero exactly when the ball's center is level with
/// the racket's center, and its sign tells on which side of it the ball is.
pub proof fn lemma_collision_point_sign(r: Racket, b: Ball)
    ensures
        collision_point(r, b) == 0 <==> b.pos_y == center_y(r),
        collision_point(r, b) > 0 <==> b.pos_y > center_y(r),
        collision_point(r, b) < 0 <==> b.pos_y < center_y(r),
{
}

/// A bounce off a racket whose outward direction is east or west adds the
/// fixed increment to the speed, keeps the horizontal component of that
/// outward direction, and takes its vertical component from the sign of the
/// collision point: southward below the center, northward above it.
pub proof fn lemma_racket_bounce(b: Ball, r: Racket, base: Direction)
    requires
        base == Direction::EAST || base == Direction::WEST,
        collides(b, r),
        b.speed + SPEED_INCREMENT <= i32::MAX,
    ensures
        after_racket(b, r, base).speed == b.speed + SPEED_INCREMENT,
        dx(after_racket(b, r, base).direction) == dx(base),
        dy(after_racket(b, r, base).direction) == sign(collision_point(r, b)),
{
}

/// A ball narrower than the field cannot touch the ceiling and the floor at once.
pub proof fn lemma_no_ceiling_and_floor(b: Ball)
    requires
        2 * b.radius < WINDOW_HEIGHT,
    ensures
        !(hits_ceiling(b) && hits_floor(b)),
{
}

/// The border check mirrors only the vertical component of the direction:
/// the ceiling turns north into south, the floor turns south into north, and
/// the horizontal component and the speed are kept.
pub proof fn lemma_border_mirrors_vertically(b: Ball)
    requires
        !(hits_ceiling(b) && hits_floor(b)),
    ensures
        dx(border_direction(b)) == dx(b.direction),
        hits_ceiling(b) ==> dy(border_direction(b)) == (if dy(b.direction) == -1 { 1 } else { dy(b.direction) }),
        hits_floor(b) ==> dy(border_direction(b)) == (if dy(b.direction) == 1 { -1 } else { dy(b.direction) }),
        !hits_ceiling(b) && !hits_floor(b) ==> border_direction(b) == b.direction,
        with_direction(b, border_direction(b)).speed == b.speed,
{
}

/// Checking the borders a second time, with no move in between, changes nothing.
pub proof fn lemma_border_check_idempotent(b: Ball)
    ensures
        border_direction(with_direction(b, border_direction(b))) == border_direction(b),
{
}

/// Pressing space asks for a restart, whatever the state; the match that
/// follows starts from `GameState::new`, whose scores are zero.
pub proof fn lemma_space_restarts(gs: GameState)
    ensures
        key_handled(gs, Input::Space).is_game_restarted,
        phase_of(key_handled(gs, Input::Space)) == Phase::Restarting,
{
}

/// While the ball heads south-east and touches neither racket nor border,
/// a tick moves the computer's racket down by exactly its speed and changes
/// nothing else about it.
pub proof fn lemma_cpu_follows_ball_down(gs: GameState)
    requires
        gs.ball.direction == Direction::SOUTHEAST,
        !collides(gs.ball, gs.racket_1),
        !collides(gs.ball, gs.racket_2),
        !hits_ceiling(gs.ball),
        !hits_floor(gs.ball),
        gs.racket_2.pos_y + gs.racket_2.speed <= i32::MAX,
    ensures
        ticked(gs).racket_2 == (Racket { pos_y: (gs.racket_2.pos_y + gs.racket_2.speed) as i32, ..gs.racket_2 }),
{
    let b = collided_ball(gs);
    assert(b.direction == Direction::SOUTHEAST);
    assert(dy(b.direction) * gs.racket_2.speed == gs.racket_2.speed);
}

/// An input never counts a point and never touches the ball, the computer's
/// racket or the scores: only ticks move play along.
pub proof fn lemma_inputs_never_score(gs: GameState, input: Input)
    ensures
        step_scorer(gs, GameEvent::Input(input)) == None::<Side>,
        stepped(gs, GameEvent::Input(input)).ball == gs.ball,
        stepped(gs, GameEvent::Input(input)).racket_2 == gs.racket_2,
        stepped(gs, GameEvent::Input(input)).score_p1 == gs.score_p1,
        stepped(gs, GameEvent::Input(input)).score_p2 == gs.score_p2,
{
}

} // verus!
