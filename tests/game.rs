use pong::engine::{
    adjust_ball_direction, handle_ball_out_of_border, handle_collisions, handle_game_events,
    step,
    handle_key_events, tick, update_cpu_racket, GameEvent, Input, Phase,
};
use pong::entity::{Ball, GameState, Racket, Side, BALL_SPEED, RACKET_HEIGHT, SPEED_INCREMENT};
use pong::geometry::Direction;
use pong::layout::{halfway_line_dashes, score_box, ScreenRect, Segment};

fn ball_at(x: i32, y: i32, direction: Direction) -> Ball {
    let mut b = Ball::new();
    b.pos_x = x;
    b.pos_y = y;
    b.direction = direction;
    b
}

#[test]
fn new_state_is_centered() {
    let gs = GameState::new();
    assert_eq!((gs.ball.pos_x, gs.ball.pos_y), (400, 300));
    assert_eq!(gs.ball.speed, 5);
    assert_eq!(gs.ball.direction, Direction::SOUTHEAST);
    assert_eq!((gs.racket_1.pos_x, gs.racket_1.pos_y), (10, 270));
    assert_eq!((gs.racket_2.pos_x, gs.racket_2.pos_y), (780, 270));
    assert_eq!((gs.score_p1, gs.score_p2), (0, 0));
    assert!(!gs.is_game_over && !gs.is_game_restarted);
    assert_eq!(gs.phase(), Phase::Playing);
}

#[test]
fn collision_point_is_zero_at_center() {
    let r = Racket::new(Side::Left);
    let center = r.pos_y + (RACKET_HEIGHT / 2) as i32;
    assert_eq!(r.collision_point_with(&ball_at(20, center, Direction::WEST)), 0);
    assert_eq!(r.collision_point_with(&ball_at(20, center + 7, Direction::WEST)), 7);
    assert_eq!(r.collision_point_with(&ball_at(20, center - 12, Direction::WEST)), -12);
}

#[test]
fn collision_detected_from_either_side() {
    let r = Racket::new(Side::Right);
    // the racket spans x 780..790, y 270..330
    assert!(ball_at(770, 300, Direction::EAST).has_collision_with(&r));
    assert!(!ball_at(769, 300, Direction::EAST).has_collision_with(&r));
    assert!(ball_at(800, 300, Direction::WEST).has_collision_with(&r));
    assert!(!ball_at(801, 300, Direction::WEST).has_collision_with(&r));
    assert!(ball_at(785, 260, Direction::WEST).has_collision_with(&r));
    assert!(!ball_at(785, 341, Direction::WEST).has_collision_with(&r));
}

#[test]
fn bounce_tilts_by_offset_and_speeds_up() {
    let mut b = ball_at(25, 310, Direction::WEST);
    adjust_ball_direction(&mut b, 10, Direction::EAST);
    assert_eq!(b.direction, Direction::SOUTHEAST);
    assert_eq!(b.speed, BALL_SPEED + SPEED_INCREMENT);
    adjust_ball_direction(&mut b, -3, Direction::EAST);
    assert_eq!(b.direction, Direction::NORTHEAST);
    assert_eq!(b.speed, BALL_SPEED + 2 * SPEED_INCREMENT);
    adjust_ball_direction(&mut b, 0, Direction::WEST);
    assert_eq!(b.direction, Direction::WEST);
    adjust_ball_direction(&mut b, 4, Direction::WEST);
    assert_eq!(b.direction, Direction::SOUTHWEST);
    adjust_ball_direction(&mut b, -4, Direction::WEST);
    assert_eq!(b.direction, Direction::NORTHWEST);
    adjust_ball_direction(&mut b, 4, Direction::NORTH);
    assert_eq!(b.direction, Direction::NORTH);
    assert_eq!(b.speed, BALL_SPEED + 6 * SPEED_INCREMENT);
    assert_eq!((b.pos_x, b.pos_y), (25, 310));
}

#[test]
fn left_racket_hit_below_center_sends_ball_southeast() {
    let mut gs = GameState::new();
    gs.ball = ball_at(25, 310, Direction::WEST);
    handle_collisions(&mut gs);
    assert_eq!(gs.ball.direction, Direction::SOUTHEAST);
    assert_eq!(gs.ball.speed, 6);
}

#[test]
fn right_racket_hit_above_center_sends_ball_northwest() {
    let mut gs = GameState::new();
    gs.ball = ball_at(775, 290, Direction::EAST);
    handle_collisions(&mut gs);
    assert_eq!(gs.ball.direction, Direction::NORTHWEST);
    assert_eq!(gs.ball.speed, 6);
}

#[test]
fn ceiling_then_floor_mirror_only_vertically() {
    let mut gs = GameState::new();
    gs.ball = ball_at(400, 10, Direction::NORTHEAST);
    handle_collisions(&mut gs);
    assert_eq!(gs.ball.direction, Direction::SOUTHEAST);
    assert_eq!(gs.ball.speed, BALL_SPEED);
    gs.ball = ball_at(400, 5, Direction::NORTHWEST);
    handle_collisions(&mut gs);
    assert_eq!(gs.ball.direction, Direction::SOUTHWEST);
    gs.ball = ball_at(400, 595, Direction::SOUTHWEST);
    handle_collisions(&mut gs);
    assert_eq!(gs.ball.direction, Direction::NORTHWEST);
    gs.ball = ball_at(400, 590, Direction::SOUTH);
    handle_collisions(&mut gs);
    assert_eq!(gs.ball.direction, Direction::NORTH);
    assert_eq!(gs.ball.speed, BALL_SPEED);
}

#[test]
fn ball_never_touches_ceiling_and_floor_at_once() {
    for y in -20..620 {
        let b = ball_at(400, y, Direction::EAST);
        assert!(!(b.has_collision_with_ceiling() && b.has_collision_with_floor()));
    }
}

#[test]
fn border_check_twice_does_not_flip_back() {
    let mut once = ball_at(400, 8, Direction::NORTHWEST);
    once.reflect_off_borders();
    let mut twice = once;
    twice.reflect_off_borders();
    assert_eq!(once.direction, Direction::SOUTHWEST);
    assert_eq!(twice, once);
    let mut b = ball_at(400, 597, Direction::SOUTHEAST);
    b.reflect_off_borders();
    b.reflect_off_borders();
    assert_eq!(b.direction, Direction::NORTHEAST);
}

#[test]
fn ball_moves_along_its_direction() {
    let cases = [
        (Direction::NORTH, 400, 295),
        (Direction::NORTHEAST, 405, 295),
        (Direction::EAST, 405, 300),
        (Direction::SOUTHEAST, 405, 305),
        (Direction::SOUTH, 400, 305),
        (Direction::SOUTHWEST, 395, 305),
        (Direction::WEST, 395, 300),
        (Direction::NORTHWEST, 395, 295),
    ];
    for (d, x, y) in cases {
        let mut b = ball_at(400, 300, d);
        b.update_position();
        assert_eq!((b.pos_x, b.pos_y), (x, y));
    }
}

#[test]
fn left_exit_scores_for_player_two() {
    let mut gs = GameState::new();
    gs.score_p1 = 3;
    gs.score_p2 = 4;
    gs.ball = ball_at(-1, 123, Direction::WEST);
    gs.ball.speed = 9;
    gs.racket_1.pos_y = 40;
    gs.racket_2.pos_y = 500;
    assert_eq!(handle_ball_out_of_border(&mut gs), Some(Side::Right));
    assert_eq!(gs.score_p2, 5);
    assert_eq!(gs.score_p1, 3);
    assert_eq!(gs.ball, Ball::new());
    assert_eq!(gs.ball.speed, BALL_SPEED);
    assert_eq!(gs.racket_1, Racket::new(Side::Left));
    assert_eq!(gs.racket_2, Racket::new(Side::Right));
}

#[test]
fn right_exit_scores_for_player_one() {
    let mut gs = GameState::new();
    gs.ball = ball_at(801, 300, Direction::EAST);
    assert_eq!(handle_ball_out_of_border(&mut gs), Some(Side::Left));
    assert_eq!((gs.score_p1, gs.score_p2), (1, 0));
    assert_eq!(gs.ball, Ball::new());
}

#[test]
fn ball_on_the_edges_scores_nothing() {
    for x in [0, 800] {
        let mut gs = GameState::new();
        gs.ball = ball_at(x, 300, Direction::EAST);
        let before = gs;
        assert_eq!(handle_ball_out_of_border(&mut gs), None);
        assert_eq!(gs, before);
    }
}

#[test]
fn space_requests_a_fresh_match() {
    let mut gs = GameState::new();
    gs.score_p1 = 7;
    gs.score_p2 = 2;
    handle_key_events(&mut gs, &Input::Space);
    assert!(gs.is_game_restarted);
    assert_eq!(gs.phase(), Phase::Restarting);
    let fresh = GameState::new();
    assert_eq!((fresh.score_p1, fresh.score_p2), (0, 0));
}

#[test]
fn quit_and_escape_end_the_game() {
    for input in [Input::Quit, Input::Escape] {
        let mut gs = GameState::new();
        handle_key_events(&mut gs, &input);
        assert!(gs.is_game_over);
        assert_eq!(gs.phase(), Phase::Stopped);
    }
    let mut gs = GameState::new();
    gs.is_game_over = true;
    gs.is_game_restarted = true;
    assert_eq!(gs.phase(), Phase::Restarting);
}

#[test]
fn arrows_move_the_player_racket_without_clamping() {
    let mut gs = GameState::new();
    handle_key_events(&mut gs, &Input::Up);
    assert_eq!(gs.racket_1.pos_y, 260);
    handle_key_events(&mut gs, &Input::Down);
    handle_key_events(&mut gs, &Input::Down);
    assert_eq!(gs.racket_1.pos_y, 280);
    for _ in 0..40 {
        handle_key_events(&mut gs, &Input::Up);
    }
    assert_eq!(gs.racket_1.pos_y, -120);
    let before = gs;
    handle_key_events(&mut gs, &Input::Other);
    assert_eq!(gs, before);
}

#[test]
fn cpu_racket_follows_southeast_ball_down() {
    let mut gs = GameState::new();
    let before = gs.racket_2;
    handle_game_events(&mut gs, &GameEvent::Tick);
    assert_eq!(gs.racket_2.pos_y, before.pos_y + before.speed);
    assert_eq!(gs.racket_2.pos_x, before.pos_x);
    assert_eq!(gs.racket_2.width, before.width);
    assert_eq!(gs.racket_2.height, before.height);
    assert_eq!(gs.racket_2.speed, before.speed);
    assert_eq!(gs.racket_2.color, before.color);
}

#[test]
fn cpu_racket_policy() {
    let cases = [
        (Direction::NORTH, 260),
        (Direction::NORTHEAST, 260),
        (Direction::NORTHWEST, 260),
        (Direction::EAST, 270),
        (Direction::WEST, 270),
        (Direction::SOUTH, 280),
        (Direction::SOUTHEAST, 280),
        (Direction::SOUTHWEST, 280),
    ];
    for (d, y) in cases {
        let mut gs = GameState::new();
        gs.ball.direction = d;
        update_cpu_racket(&mut gs);
        assert_eq!(gs.racket_2.pos_y, y);
    }
}

#[test]
fn a_tick_moves_ball_then_cpu() {
    let mut gs = GameState::new();
    tick(&mut gs);
    assert_eq!((gs.ball.pos_x, gs.ball.pos_y), (405, 305));
    assert_eq!(gs.racket_2.pos_y, 280);
    assert_eq!(gs.racket_1.pos_y, 270);
}

#[test]
fn unreturned_ball_scores_for_player_one() {
    let mut gs = GameState::new();
    let mut ticks = 0;
    let mut scored = None;
    while scored.is_none() && ticks < 1000 {
        assert_eq!(gs.ball.speed, BALL_SPEED);
        assert!(gs.can_step(&GameEvent::Tick));
        scored = step(&mut gs, &GameEvent::Tick);
        ticks += 1;
    }
    assert_eq!(scored, Some(Side::Left));
    assert_eq!(ticks, 81);
    assert_eq!((gs.score_p1, gs.score_p2), (1, 0));
    assert_eq!(gs.ball, Ball::new());
    assert_eq!(gs.racket_1, Racket::new(Side::Left));
    assert_eq!(gs.racket_2, Racket::new(Side::Right));
    assert!(!gs.is_game_over && !gs.is_game_restarted);
}

#[test]
fn inputs_between_ticks_do_not_move_the_ball() {
    let mut gs = GameState::new();
    let ball = gs.ball;
    assert_eq!(step(&mut gs, &GameEvent::Input(Input::Down)), None);
    assert_eq!(gs.ball, ball);
    assert_eq!(gs.racket_1.pos_y, 280);
}

#[test]
fn inputs_never_count_a_point() {
    let mut gs = GameState::new();
    gs.ball = ball_at(-1, 300, Direction::WEST);
    let before = gs;
    assert_eq!(step(&mut gs, &GameEvent::Input(Input::Other)), None);
    assert_eq!(gs, before);
    assert_eq!(step(&mut gs, &GameEvent::Input(Input::Quit)), None);
    assert_eq!((gs.score_p1, gs.score_p2), (0, 0));
    assert_eq!(gs.ball, before.ball);
}

#[test]
fn handling_a_tick_leaves_scoring_to_the_border_check() {
    let mut gs = GameState::new();
    gs.ball = ball_at(798, 100, Direction::SOUTHEAST);
    let racket_2 = gs.racket_2;
    handle_game_events(&mut gs, &GameEvent::Tick);
    assert_eq!((gs.ball.pos_x, gs.ball.pos_y), (803, 105));
    assert_eq!((gs.score_p1, gs.score_p2), (0, 0));
    assert_eq!(gs.racket_2.pos_y, racket_2.pos_y + racket_2.speed);
    assert_eq!(handle_ball_out_of_border(&mut gs), Some(Side::Left));
    assert_eq!((gs.score_p1, gs.score_p2), (1, 0));
}

#[test]
fn a_full_score_only_blocks_the_side_that_would_score() {
    let mut gs = GameState::new();
    gs.score_p1 = i32::MAX;
    gs.score_p2 = i32::MAX;
    assert!(gs.can_step(&GameEvent::Tick));
    assert!(gs.can_step(&GameEvent::Input(Input::Quit)));
    gs.ball = ball_at(798, 100, Direction::SOUTHEAST);
    assert!(!gs.can_step(&GameEvent::Tick));
    gs.score_p1 = 3;
    assert!(gs.can_step(&GameEvent::Tick));
}

#[test]
fn steps_that_would_overflow_are_refused() {
    let mut gs = GameState::new();
    assert!(gs.can_step(&GameEvent::Tick));
    gs.ball.speed = i32::MAX - 1;
    assert!(!gs.can_step(&GameEvent::Tick));
    let mut gs = GameState::new();
    gs.racket_1.pos_y = i32::MIN + 5;
    assert!(!gs.can_step(&GameEvent::Input(Input::Up)));
    assert!(gs.can_step(&GameEvent::Input(Input::Down)));
    let mut gs = GameState::new();
    gs.ball.speed = -5;
    assert!(gs.can_step(&GameEvent::Tick));
    gs.ball.pos_x = i32::MIN + 2;
    gs.ball.direction = Direction::EAST;
    assert!(!gs.can_step(&GameEvent::Tick));
}

#[test]
fn halfway_line_has_evenly_spaced_dashes() {
    let dashes = halfway_line_dashes();
    assert_eq!(dashes.len(), 20);
    assert_eq!(dashes[0], Segment { x1: 398, y1: 7, x2: 398, y2: 22 });
    assert_eq!(dashes[1], Segment { x1: 398, y1: 37, x2: 398, y2: 52 });
    assert_eq!(dashes[19], Segment { x1: 398, y1: 577, x2: 398, y2: 592 });
}

#[test]
fn score_boxes_sit_at_quarters() {
    assert_eq!(score_box(Side::Left), ScreenRect { x: 167, y: 60, width: 66, height: 60 });
    assert_eq!(score_box(Side::Right), ScreenRect { x: 567, y: 60, width: 66, height: 60 });
}
