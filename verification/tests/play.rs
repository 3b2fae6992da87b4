use pong::config::{
    BALL_HEIGHT, BALL_SPEED, BALL_START_DIRECTION_X, BALL_START_DIRECTION_Y, BALL_START_X,
    BALL_START_Y, BALL_WIDTH, LEFT_SCORING_ZONE_X, OPPONENT_PADDLE_START_X, PADDLE_HEIGHT,
    PADDLE_SPEED, PADDLE_WIDTH, PLAYER_PADDLE_START_X, RESPAWN_NANOS, RIGHT_SCORING_ZONE_X,
    SCORING_ZONE_HEIGHT, SCORING_ZONE_WIDTH, UNITS_PER_PIXEL, WINDOW_HEIGHT, WINDOW_WIDTH,
};
use pong::entity::{Ball, Collider};
use pong::game::{Game, GameState, StepError};
use pong::geometry::Vec2;
use pong::paddle::PaddleInput;
use pong::score::{Score, Side};

const PX: i64 = 1_000_000_000;
const TICK: u64 = 15_625_000;

fn starting_colliders() -> Vec<Collider> {
    vec![
        Collider::paddle(Vec2::new(-370 * PX, 0)),
        Collider::paddle(Vec2::new(370 * PX, 0)),
        Collider::scoring_zone(Vec2::new(-410 * PX, 0), Side::Left),
        Collider::scoring_zone(Vec2::new(410 * PX, 0), Side::Right),
    ]
}

#[test]
fn measures_of_the_game() {
    assert_eq!(UNITS_PER_PIXEL, 1_000_000_000);
    assert_eq!(WINDOW_WIDTH, 800 * UNITS_PER_PIXEL);
    assert_eq!(WINDOW_HEIGHT, 600 * UNITS_PER_PIXEL);
    assert_eq!(PADDLE_WIDTH, 20 * UNITS_PER_PIXEL);
    assert_eq!(PADDLE_HEIGHT, 120 * UNITS_PER_PIXEL);
    assert_eq!(PADDLE_SPEED, 400);
    assert_eq!(BALL_WIDTH, 20 * UNITS_PER_PIXEL);
    assert_eq!(BALL_HEIGHT, 20 * UNITS_PER_PIXEL);
    assert_eq!(BALL_SPEED, 500);
    assert_eq!((BALL_START_X, BALL_START_Y), (0, 0));
    assert_eq!((BALL_START_DIRECTION_X, BALL_START_DIRECTION_Y), (-1, 0));
    assert_eq!(SCORING_ZONE_WIDTH, BALL_WIDTH);
    assert_eq!(SCORING_ZONE_HEIGHT, BALL_HEIGHT);
    assert_eq!(
        PLAYER_PADDLE_START_X,
        -((WINDOW_WIDTH / 2) as i64) + PADDLE_WIDTH as i64 + (PADDLE_WIDTH / 2) as i64
    );
    assert_eq!(
        OPPONENT_PADDLE_START_X,
        (WINDOW_WIDTH / 2) as i64 - PADDLE_WIDTH as i64 - (PADDLE_WIDTH / 2) as i64
    );
    assert_eq!(LEFT_SCORING_ZONE_X, -((WINDOW_WIDTH / 2) as i64) - (SCORING_ZONE_WIDTH / 2) as i64);
    assert_eq!(RIGHT_SCORING_ZONE_X, (WINDOW_WIDTH / 2) as i64 + (SCORING_ZONE_WIDTH / 2) as i64);
    assert_eq!(RESPAWN_NANOS, 3_000_000_000);
}

#[test]
fn setup_lays_out_the_field() {
    let game = Game::setup();
    assert_eq!(game.colliders(), &starting_colliders());
    assert_eq!(game.player(), 0);
    assert_eq!(game.ball(), Some(Ball::serve()));
    assert_eq!(game.score(), Score::new());
    assert_eq!(game.state(), GameState::Playing);
    assert_eq!(game.respawn_timer(), None);
    assert_eq!(Some(game), Game::new(starting_colliders(), 0, Ball::serve(), Score::new()));
}

#[test]
fn player_paddle_moves_and_nothing_else() {
    let mut game = Game::setup();
    let before = game.clone();
    game.move_player_paddle(PaddleInput::new(true, false), TICK, WINDOW_HEIGHT);
    assert_eq!(game.colliders()[0].position, Vec2::new(-370 * PX, 6_250_000_000));
    assert_eq!(game.colliders()[0].size, before.colliders()[0].size);
    assert_eq!(game.colliders()[0].scoring_zone, None);
    assert_eq!(game.colliders()[1..], before.colliders()[1..]);
    assert_eq!(game.ball(), before.ball());
    assert_eq!(game.score(), before.score());
    assert_eq!(game.state(), before.state());
    game.move_player_paddle(PaddleInput::new(true, true), TICK, WINDOW_HEIGHT);
    assert_eq!(game.colliders()[0].position, Vec2::new(-370 * PX, 0));
}

#[test]
fn idle_player_paddle_stays() {
    let mut game = Game::setup();
    game.move_player_paddle(PaddleInput::new(false, true), 7 * TICK, WINDOW_HEIGHT);
    let before = game.clone();
    for _ in 0..20 {
        game.move_player_paddle(PaddleInput::idle(), TICK, WINDOW_HEIGHT);
        assert_eq!(game, before);
    }
}

#[test]
fn player_paddle_stays_inside_the_window() {
    let mut game = Game::setup();
    for _ in 0..100 {
        game.move_player_paddle(PaddleInput::new(true, false), TICK, WINDOW_HEIGHT);
        assert!(game.colliders()[0].position.y <= 240 * PX);
    }
    assert_eq!(game.colliders()[0].position.y, 240 * PX);
    for _ in 0..200 {
        game.move_player_paddle(PaddleInput::new(false, true), TICK, WINDOW_HEIGHT);
        assert!(game.colliders()[0].position.y >= -240 * PX);
    }
    assert_eq!(game.colliders()[0].position.y, -240 * PX);
}

#[test]
fn player_paddle_need_not_be_the_first_collider() {
    let mut game = Game::new(starting_colliders(), 1, Ball::serve(), Score::new()).unwrap();
    game.move_player_paddle(PaddleInput::new(false, true), TICK, WINDOW_HEIGHT);
    assert_eq!(game.colliders()[0], Collider::paddle(Vec2::new(-370 * PX, 0)));
    assert_eq!(game.colliders()[1].position, Vec2::new(370 * PX, -6_250_000_000));
}

#[test]
fn apply_velocity_moves_the_ball() {
    let mut game = Game::setup();
    game.apply_velocity(TICK);
    assert_eq!(game.ball().unwrap().position, Vec2::new(-7_812_500_000, 0));
    assert_eq!(game.ball().unwrap().velocity, Vec2::new(-500, 0));
    game.apply_velocity(TICK);
    assert_eq!(game.ball().unwrap().position, Vec2::new(-15_625_000_000, 0));
    assert_eq!(game.colliders(), &starting_colliders());
}

#[test]
fn ball_bounces_between_the_paddles() {
    let mut game = Game::setup();
    for _ in 0..44 {
        game.fixed_update(PaddleInput::idle(), TICK, WINDOW_HEIGHT);
        assert_eq!(game.ball().unwrap().velocity, Vec2::new(-500, 0));
    }
    game.fixed_update(PaddleInput::idle(), TICK, WINDOW_HEIGHT);
    assert_eq!(game.ball().unwrap().position, Vec2::new(-351_562_500_000, 0));
    assert_eq!(game.ball().unwrap().velocity, Vec2::new(500, 0));
    for _ in 0..89 {
        game.fixed_update(PaddleInput::idle(), TICK, WINDOW_HEIGHT);
        assert_eq!(game.ball().unwrap().velocity, Vec2::new(500, 0));
    }
    game.fixed_update(PaddleInput::idle(), TICK, WINDOW_HEIGHT);
    assert_eq!(game.ball().unwrap().position, Vec2::new(351_562_500_000, 0));
    assert_eq!(game.ball().unwrap().velocity, Vec2::new(-500, 0));
    assert_eq!(game.score(), Score::new());
    assert_eq!(game.state(), GameState::Playing);
}

#[test]
fn ball_past_the_paddle_scores_and_is_served_again() {
    let mut game = Game::setup();
    let up = PaddleInput::new(true, false);
    for _ in 0..49 {
        game.fixed_update(up, TICK, WINDOW_HEIGHT);
        assert_eq!(game.state(), GameState::Playing);
        assert_eq!(game.score(), Score::new());
        assert_eq!(game.ball().unwrap().velocity, Vec2::new(-500, 0));
    }
    game.fixed_update(up, TICK, WINDOW_HEIGHT);
    assert_eq!(game.score(), Score { left: 1, right: 0 });
    assert_eq!(game.ball(), None);
    assert_eq!(game.state(), GameState::Respawning);
    assert_eq!(game.colliders()[0].position.y, 240 * PX);

    for _ in 0..191 {
        game.fixed_update(up, TICK, WINDOW_HEIGHT);
        game.update(TICK);
        assert_eq!(game.ball(), None);
        assert_eq!(game.state(), GameState::Respawning);
    }
    game.fixed_update(up, TICK, WINDOW_HEIGHT);
    game.update(TICK);
    assert_eq!(game.ball(), Some(Ball::serve()));
    assert_eq!(game.state(), GameState::Playing);
    assert_eq!(game.respawn_timer(), None);

    for _ in 0..50 {
        game.fixed_update(up, TICK, WINDOW_HEIGHT);
    }
    assert_eq!(game.score(), Score { left: 2, right: 0 });
    assert_eq!(game.state(), GameState::Respawning);
}

#[test]
fn checked_tick_does_what_the_tick_does() {
    let mut checked = Game::setup();
    let mut plain = Game::setup();
    let inputs = [
        PaddleInput::new(true, false),
        PaddleInput::idle(),
        PaddleInput::new(false, true),
        PaddleInput::new(true, true),
    ];
    for i in 0..200 {
        let input = inputs[i % 4];
        assert_eq!(checked.try_fixed_update(input, TICK, WINDOW_HEIGHT), Ok(()));
        plain.fixed_update(input, TICK, WINDOW_HEIGHT);
        assert_eq!(checked, plain);
    }
}

#[test]
fn checked_tick_refuses_a_window_without_room() {
    let mut game = Game::setup();
    let before = game.clone();
    assert_eq!(
        game.try_fixed_update(PaddleInput::new(true, false), TICK, 119_999_999_999),
        Err(StepError::WindowTooSmall)
    );
    assert_eq!(game, before);
    assert_eq!(game.try_fixed_update(PaddleInput::new(true, false), TICK, 120_000_000_000), Ok(()));
    assert_eq!(game.colliders()[0].position.y, 0);
    assert_eq!(game.ball().unwrap().position.x, -7_812_500_000);
}

#[test]
fn checked_tick_refuses_a_point_that_cannot_be_counted() {
    let colliders = vec![
        Collider::paddle(Vec2::new(-370 * PX, 240 * PX)),
        Collider::scoring_zone(Vec2::new(-410 * PX, 0), Side::Left),
    ];
    let ball = Ball::new(Vec2::new(-385 * PX, 0), Vec2::new(-500, 0));
    let full = Score { left: usize::MAX, right: 0 };
    let mut game = Game::new(colliders.clone(), 0, ball, full).unwrap();
    let before = game.clone();
    assert_eq!(
        game.try_fixed_update(PaddleInput::idle(), TICK, WINDOW_HEIGHT),
        Err(StepError::ScoreFull)
    );
    assert_eq!(game, before);
    assert_eq!(
        game.try_fixed_update(PaddleInput::idle(), TICK, 0),
        Err(StepError::WindowTooSmall)
    );

    let almost = Score { left: usize::MAX - 1, right: 0 };
    let mut game = Game::new(colliders, 0, ball, almost).unwrap();
    assert_eq!(game.try_fixed_update(PaddleInput::idle(), TICK, WINDOW_HEIGHT), Ok(()));
    assert_eq!(game.score(), full);
    assert_eq!(game.state(), GameState::Respawning);
    assert_eq!(game.try_fixed_update(PaddleInput::idle(), TICK, WINDOW_HEIGHT), Ok(()));
}
