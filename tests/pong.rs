use pong::ball::BallPlugin;
use pong::bounce;
use pong::game::Game;
use pong::geometry::{
    side_from_offset, Aabb2d, BoundingCircle, Collision, Position, Shape, Vector, Velocity,
    UNITS_PER_PIXEL,
};
use pong::gutter::GutterPlugin;
use pong::paddle::PaddlePlugin;
use pong::scorer::{Score, ScorePlugin, Scored, Scorer};
use pong::walker::WalkerPlugin;

fn px(v: i64) -> i64 {
    v * UNITS_PER_PIXEL
}

fn at(x: i64, y: i64) -> Vector {
    Vector::new(px(x), px(y))
}

#[test]
fn ball_past_right_edge_gives_ai_a_point_and_reserves_left() {
    let mut position = Position(at(0, 0));
    let velocity = Velocity(at(1, 2));
    let window_width = px(800);
    let mut event = None;
    let mut ticks = 0;
    while event.is_none() {
        BallPlugin::move_ball(&mut position, &velocity);
        event = ScorePlugin::detect_scoring(&position, window_width);
        ticks += 1;
        assert!(ticks <= 1000);
    }
    assert_eq!(ticks, 401);
    assert!(position.0.x > px(400));
    assert_eq!(event, Some(Scored(Scorer::Ai)));

    let events = vec![event.unwrap()];
    let mut velocity = velocity;
    let mut score = Score::default();
    ScorePlugin::reset_ball(&mut position, &mut velocity, &events);
    ScorePlugin::update_score(&mut score, &events);
    assert_eq!(score, Score { player: 0, ai: 1 });
    assert_eq!(position.0, at(0, 0));
    assert_eq!(velocity.0, at(-1, 2));
}

#[test]
fn ball_past_left_edge_gives_player_a_point() {
    let position = Position(Vector::new(-px(400) - 1, 0));
    assert_eq!(ScorePlugin::detect_scoring(&position, px(800)), Some(Scored(Scorer::Player)));
    let edge = Position(Vector::new(-px(400), 0));
    assert_eq!(ScorePlugin::detect_scoring(&edge, px(800)), None);
    let right_edge = Position(Vector::new(px(400), 0));
    assert_eq!(ScorePlugin::detect_scoring(&right_edge, px(800)), None);
}

#[test]
fn ball_hitting_left_face_of_paddle_reverses_horizontally() {
    let ball = BoundingCircle { center: at(94, 0), radius: px(5) };
    let wall = Aabb2d { center: at(100, 0), size: at(10, 50) };
    assert_eq!(BallPlugin::collide_with_side(ball, wall), Some(Collision::Left));

    let mut velocity = Velocity(at(1, 2));
    let others = vec![(Position(at(100, 0)), Shape(at(10, 50)))];
    BallPlugin::handle_collisions(&mut velocity, &Position(at(94, 0)), &Shape(at(5, 5)), &others);
    assert_eq!(velocity.0, at(-1, 2));
}

#[test]
fn ball_centered_on_paddle_edge_has_zero_offset_and_hits_bottom() {
    // the center lies on the box's left face, so the closest point is the
    // center itself: a zero offset, which the tie rule sends to Bottom
    let ball = BoundingCircle { center: at(95, 0), radius: px(5) };
    let wall = Aabb2d { center: at(100, 0), size: at(10, 50) };
    assert_eq!(BallPlugin::collide_with_side(ball, wall), Some(Collision::Bottom));

    let mut velocity = Velocity(at(1, 2));
    let others = vec![(Position(at(100, 0)), Shape(at(10, 50)))];
    BallPlugin::handle_collisions(&mut velocity, &Position(at(95, 0)), &Shape(at(5, 5)), &others);
    assert_eq!(velocity.0, at(1, -2));
}

#[test]
fn ball_clear_of_box_is_not_a_collision() {
    let ball = BoundingCircle { center: at(80, 0), radius: px(5) };
    let wall = Aabb2d { center: at(100, 0), size: at(10, 50) };
    assert_eq!(BallPlugin::collide_with_side(ball, wall), None);
    // diagonally off a corner: within both extents' reach, but not the radius
    let corner = BoundingCircle { center: at(99, 29), radius: px(5) };
    let box_ = Aabb2d { center: at(100, 0), size: at(10, 50) };
    assert_eq!(BallPlugin::collide_with_side(corner, box_), Some(Collision::Top));
    let off_corner = BoundingCircle { center: Vector::new(px(109), px(29)), radius: px(5) };
    assert_eq!(BallPlugin::collide_with_side(off_corner, box_), None);
}

#[test]
fn ball_on_top_face_reverses_vertically() {
    let mut velocity = Velocity(at(1, -2));
    let others = vec![(Position(at(0, -100)), Shape(at(800, 20)))];
    BallPlugin::handle_collisions(&mut velocity, &Position(at(0, -88)), &Shape(at(5, 5)), &others);
    assert_eq!(velocity.0, at(1, 2));
}

#[test]
fn touching_two_obstacles_on_one_axis_flips_twice() {
    let mut velocity = Velocity(at(1, 2));
    let others = vec![
        (Position(at(100, 0)), Shape(at(10, 50))),
        (Position(at(100, 5)), Shape(at(10, 50))),
    ];
    BallPlugin::handle_collisions(&mut velocity, &Position(at(94, 0)), &Shape(at(5, 5)), &others);
    assert_eq!(velocity.0, at(1, 2));
}

#[test]
fn side_selection_follows_larger_axis_with_vertical_ties() {
    assert_eq!(side_from_offset(-3, 1), Collision::Left);
    assert_eq!(side_from_offset(3, -1), Collision::Right);
    assert_eq!(side_from_offset(1, 3), Collision::Top);
    assert_eq!(side_from_offset(-1, -3), Collision::Bottom);
    assert_eq!(side_from_offset(2, 2), Collision::Top);
    assert_eq!(side_from_offset(-2, -2), Collision::Bottom);
    assert_eq!(side_from_offset(0, 0), Collision::Bottom);
    assert_eq!(side_from_offset(5, 0), Collision::Right);
}

#[test]
fn player_input_sets_vertical_speed() {
    let mut velocity = Velocity(at(0, 0));
    PaddlePlugin::handle_player_input(true, false, &mut velocity);
    assert_eq!(velocity.0, at(0, 1));
    PaddlePlugin::handle_player_input(false, true, &mut velocity);
    assert_eq!(velocity.0, at(0, -1));
    PaddlePlugin::handle_player_input(true, true, &mut velocity);
    assert_eq!(velocity.0, at(0, 1));
    PaddlePlugin::handle_player_input(false, false, &mut velocity);
    assert_eq!(velocity.0, at(0, 0));
}

#[test]
fn ai_chases_ball_height() {
    let mut velocity = Velocity(at(0, 0));
    let paddle = Position(at(-350, 10));
    PaddlePlugin::handle_ai(&mut velocity, &paddle, &Position(at(0, 50)));
    assert_eq!(velocity.0, Vector::new(0, 9));
    PaddlePlugin::handle_ai(&mut velocity, &paddle, &Position(at(0, -50)));
    assert_eq!(velocity.0, Vector::new(0, -9));
    PaddlePlugin::handle_ai(&mut velocity, &paddle, &Position(at(0, 10)));
    assert_eq!(velocity.0, Vector::new(0, 9));
}

#[test]
fn paddle_moves_inside_limit_and_stops_at_it() {
    // window 600 high, gutter 20 high, paddle 50 high: limit 300 - 10 - 25 = 265
    let gutter = Shape(at(800, 20));
    let velocity = Velocity(at(0, 1));
    let mut position = Position(at(350, 0));
    PaddlePlugin::move_paddle(&mut position, &velocity, px(600), &gutter);
    assert_eq!(position.0, at(350, 2));

    let mut near = Position(at(350, 262));
    PaddlePlugin::move_paddle(&mut near, &velocity, px(600), &gutter);
    assert_eq!(near.0, at(350, 264));
    PaddlePlugin::move_paddle(&mut near, &velocity, px(600), &gutter);
    assert_eq!(near.0, at(350, 264));
    PaddlePlugin::move_paddle(&mut near, &Velocity(at(0, -1)), px(600), &gutter);
    assert_eq!(near.0, at(350, 262));
}

#[test]
fn move_paddles_moves_each() {
    let gutter = Shape(at(800, 20));
    let mut paddles = vec![
        (Position(at(350, 0)), Velocity(at(0, 1))),
        (Position(at(-350, 0)), Velocity(Vector::new(0, -9))),
        (Position(at(-350, -264)), Velocity(at(0, -1))),
    ];
    PaddlePlugin::move_paddles(&mut paddles, px(600), &gutter);
    assert_eq!(paddles[0].0 .0, at(350, 2));
    assert_eq!(paddles[1].0 .0, Vector::new(px(-350), -18));
    assert_eq!(paddles[2].0 .0, at(-350, -264));
}

#[test]
fn score_counts_each_signal_once() {
    let mut score = Score::default();
    let events = vec![Scored(Scorer::Ai), Scored(Scorer::Player), Scored(Scorer::Ai)];
    ScorePlugin::update_score(&mut score, &events);
    assert_eq!(score, Score { player: 1, ai: 2 });
    ScorePlugin::update_score(&mut score, &vec![]);
    assert_eq!(score, Score { player: 1, ai: 2 });
}

#[test]
fn player_point_reserves_right() {
    let mut position = Position(at(-401, 7));
    let mut velocity = Velocity(at(-1, 2));
    ScorePlugin::reset_ball(&mut position, &mut velocity, &vec![Scored(Scorer::Player)]);
    assert_eq!(position.0, at(0, 0));
    assert_eq!(velocity.0, at(1, 2));

    let mut untouched = Position(at(3, 4));
    let mut still = Velocity(at(1, 1));
    ScorePlugin::reset_ball(&mut untouched, &mut still, &vec![]);
    assert_eq!(untouched.0, at(3, 4));
    assert_eq!(still.0, at(1, 1));
}

#[test]
fn new_game_places_everything() {
    let game = Game::new(px(800), px(600));
    assert_eq!(game.score, Score { player: 0, ai: 0 });
    assert_eq!(game.ball.position.0, at(0, 0));
    assert_eq!(game.ball.velocity.0, at(1, 2));
    assert_eq!(game.ball.shape.0, at(5, 5));
    assert_eq!(game.player.position.0, at(350, 0));
    assert_eq!(game.ai.position.0, at(-350, 0));
    assert_eq!(game.player.shape.0, at(10, 50));
    assert_eq!(game.top_gutter.position.0, at(0, 290));
    assert_eq!(game.bottom_gutter.position.0, at(0, -290));
    assert_eq!(game.top_gutter.shape.0, at(800, 20));
    let (top, bottom) = GutterPlugin::spawn_gutters(px(800), px(600));
    assert_eq!(top.0 .0, at(0, 290));
    assert_eq!(bottom.0 .0, at(0, -290));
}

#[test]
fn tick_runs_the_pipeline_in_order() {
    let mut game = Game::new(px(800), px(600));
    let event = game.tick(true, false);
    assert_eq!(event, None);
    assert_eq!(game.player.velocity.0, at(0, 1));
    assert_eq!(game.player.position.0, at(350, 2));
    assert_eq!(game.ai.velocity.0, Vector::new(0, 9));
    assert_eq!(game.ai.position.0, Vector::new(px(-350), 18));
    assert_eq!(game.ball.position.0, at(1, 2));
    assert_eq!(game.ball.velocity.0, at(1, 2));
}

#[test]
fn ball_bounces_off_top_gutter_during_play() {
    let mut game = Game::new(px(800), px(600));
    let mut flipped = false;
    for _ in 0..200 {
        let event = game.tick(false, false);
        assert_eq!(event, None);
        if game.ball.velocity.0.y < 0 {
            flipped = true;
            break;
        }
    }
    assert!(flipped);
    assert_eq!(game.ball.velocity.0.x, px(1));
    assert!(game.ball.position.0.y <= px(280));
}

#[test]
fn long_game_scores_match_signals() {
    let mut game = Game::new(px(800), px(600));
    let mut signals = 0u32;
    for i in 0..20000 {
        let before = game.score;
        if game.tick(i % 3 == 0, i % 5 == 0).is_some() {
            signals += 1;
        }
        assert!(game.score.player >= before.player);
        assert!(game.score.ai >= before.ai);
        assert_eq!(game.score.player + game.score.ai, signals);
    }
}

#[test]
fn bounce_scene_keeps_ball_inside() {
    let mut position = Position(at(99, 0));
    let mut velocity = Velocity(at(10, 15));
    let shape = Shape(Vector::new(25, 25));
    bounce::BallPlugin::check_bounds(&mut position, &mut velocity, &shape, at(100, 50));
    assert_eq!(position.0, Vector::new(px(100) - 25, 0));
    assert_eq!(velocity.0, at(-10, 15));

    let mut low = Position(at(0, -50));
    let mut v = Velocity(at(10, -15));
    bounce::BallPlugin::check_bounds(&mut low, &mut v, &shape, at(100, 50));
    assert_eq!(low.0, Vector::new(0, -px(50) + 25));
    assert_eq!(v.0, at(10, 15));

    let mut inside = Position(at(0, 0));
    let mut w = Velocity(at(10, 15));
    bounce::BallPlugin::check_bounds(&mut inside, &mut w, &shape, at(100, 50));
    assert_eq!(inside.0, at(0, 0));
    assert_eq!(w.0, at(10, 15));
}

#[test]
fn walker_steps_one_diameter() {
    let from = Vector::new(0, 0);
    assert_eq!(WalkerPlugin::step(from, 1, -1), Vector::new(30, -30));
    assert_eq!(WalkerPlugin::step(from, 0, 0), from);
    assert_eq!(WalkerPlugin::step(Vector::new(5, 5), -1, 1), Vector::new(-25, 35));
}

#[test]
fn walker_draws_each_direction_from_the_rng() {
    let mut rng = bevy_turborand::RngComponent::with_seed(7);
    let from = Vector::new(300, -300);
    let mut seen_x = [false; 3];
    let mut seen_y = [false; 3];
    for _ in 0..200 {
        let next = WalkerPlugin::next_dot(&mut rng, from);
        let dx = next.x - from.x;
        let dy = next.y - from.y;
        assert!(dx == -30 || dx == 0 || dx == 30);
        assert!(dy == -30 || dy == 0 || dy == 30);
        seen_x[(dx / 30 + 1) as usize] = true;
        seen_y[(dy / 30 + 1) as usize] = true;
    }
    assert_eq!(seen_x, [true; 3]);
    assert_eq!(seen_y, [true; 3]);
}

#[test]
fn has_room_guards_tick() {
    let game = Game::new(px(800), px(600));
    assert!(game.has_room());
    let mut full = game;
    full.score.ai = u32::MAX;
    assert!(!full.has_room());
    let mut far = game;
    far.ball.position.0.x = pong::geometry::MAX_COORD;
    assert!(!far.has_room());
    let mut bad_shape = game;
    bad_shape.ball.shape.0.x = -1;
    assert!(!bad_shape.has_room());
}

#[test]
fn spawned_paddles_stand_still_at_paddle_size() {
    let (player, ai) = PaddlePlugin::spawn_paddles(px(800));
    assert_eq!(player.0 .0, at(350, 0));
    assert_eq!(ai.0 .0, at(-350, 0));
    assert_eq!(player.1 .0, at(0, 0));
    assert_eq!(ai.1 .0, at(0, 0));
    assert_eq!(player.2 .0, at(10, 50));
    assert_eq!(ai.2 .0, at(10, 50));
}

#[test]
fn full_player_count_does_not_block_an_ai_point() {
    let mut score = Score { player: u32::MAX, ai: 3 };
    ScorePlugin::update_score(&mut score, &vec![Scored(Scorer::Ai)]);
    assert_eq!(score, Score { player: u32::MAX, ai: 4 });
}
