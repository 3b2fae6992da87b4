//! What holds of the game whatever is played: each law is stated over the
//! functions that the contracts of the game use, and proved.

use crate::config::RESPAWN_NANOS;
use crate::entity::Ball;
use crate::game::{hits, starting_colliders, GameState, GameView};
use crate::paddle::{has_room, lemma_idle_paddle_stays, lower_bound, upper_bound, PaddleInput};
use crate::score::Side;
use crate::timer::Countdown;
use vstd::prelude::*;

verus! {

/// The sum of a run of tick lengths, in nanoseconds.
pub open spec fn total(deltas: Seq<u64>) -> nat
    decreases deltas.len(),
{
    if deltas.len() == 0 {
        0
    } else {
        total(deltas.drop_last()) + deltas.last() as nat
    }
}

/// The ball after one flight for each of `dts`, in turn.
pub open spec fn flown(ball: Ball, dts: Seq<u64>) -> Ball
    decreases dts.len(),
{
    if dts.len() == 0 {
        ball
    } else {
        flown(ball, dts.drop_last()).advanced(dts.last())
    }
}

/// The game after one frame for each of `deltas`, in turn.
pub open spec fn after_frames(game: GameView, deltas: Seq<u64>) -> GameView
    decreases deltas.len(),
{
    if deltas.len() == 0 {
        game
    } else {
        after_frames(game, deltas.drop_last()).respawn_ticked(deltas.last())
    }
}

/// With no key held, a tick leaves a player's paddle that is inside the
/// window, and with it the whole field, as it was.
pub proof fn idle_paddle_rests(game: GameView, input: PaddleInput, dt: u64, window_height: u64)
    requires
        game.wf(),
        !input.up && !input.down,
        lower_bound(window_height) <= game.colliders[game.player].position.y <= upper_bound(
            window_height,
        ),
    ensures
        game.paddle_moved(input, dt, window_height) == game,
{
    lemma_idle_paddle_stays(game.colliders[game.player].position.y, input, dt, window_height);
    assert(game.paddle_moved(input, dt, window_height).colliders =~= game.colliders);
}

/// After a tick the player's paddle is inside the window, whatever was asked
/// of it and wherever it stood.
pub proof fn paddle_ends_in_window(game: GameView, input: PaddleInput, dt: u64, window_height: u64)
    requires
        game.wf(),
        has_room(window_height),
    ensures
        ({
            let y = game.paddle_moved(input, dt, window_height).colliders[game.player].position.y;
            lower_bound(window_height) <= y <= upper_bound(window_height)
        }),
{
}

/// Moving the paddle touches nothing but the player's paddle, and of that
/// only its height.
pub proof fn paddle_move_is_local(game: GameView, input: PaddleInput, dt: u64, window_height: u64)
    requires
        game.wf(),
    ensures
        ({
            let after = game.paddle_moved(input, dt, window_height);
            &&& after.ball == game.ball
            &&& after.score == game.score
            &&& after.state == game.state
            &&& after.respawn_timer == game.respawn_timer
            &&& after.colliders.len() == game.colliders.len()
            &&& forall|i: int|
                0 <= i < game.colliders.len() && i != game.player ==> after.colliders[i]
                    == game.colliders[i]
            &&& after.colliders[game.player].position.x == game.colliders[game.player].position.x
            &&& after.colliders[game.player].size == game.colliders[game.player].size
            &&& after.colliders[game.player].is_paddle()
        }),
{
}

/// A ball that overlaps exactly one paddle and no scoring zone leaves the
/// tick with its horizontal speed turned round once, and with nothing else
/// about it changed.
pub proof fn one_paddle_turns_ball(game: GameView, ball: Ball)
    requires
        game.wf(),
        game.ball == Some(ball),
        hits(game.colliders, ball.bounds(), None) == 1,
        hits(game.colliders, ball.bounds(), Some(Side::Left)) == 0,
        hits(game.colliders, ball.bounds(), Some(Side::Right)) == 0,
    ensures
        game.resolved().ball matches Some(after) && {
            &&& after.velocity.x == -ball.velocity.x
            &&& after.velocity.y == ball.velocity.y
            &&& after.position == ball.position
            &&& after.size == ball.size
            &&& (ball.velocity.x > 0 <==> after.velocity.x < 0)
            &&& (ball.velocity.x < 0 <==> after.velocity.x > 0)
        },
{
}

/// A ball that overlaps nothing leaves the tick as it entered it, and so
/// does the rest of the game.
pub proof fn free_ball_keeps_course(game: GameView, ball: Ball)
    requires
        game.wf(),
        game.ball == Some(ball),
        hits(game.colliders, ball.bounds(), None) == 0,
        hits(game.colliders, ball.bounds(), Some(Side::Left)) == 0,
        hits(game.colliders, ball.bounds(), Some(Side::Right)) == 0,
    ensures
        game.resolved() == game,
{
}

/// A ball in the left scoring zone alone counts exactly one point on the
/// left and none on the right, and is gone after the tick.
pub proof fn left_zone_scores_left(game: GameView, ball: Ball)
    requires
        game.wf(),
        game.ball == Some(ball),
        game.score_has_room(),
        hits(game.colliders, ball.bounds(), Some(Side::Left)) == 1,
        hits(game.colliders, ball.bounds(), Some(Side::Right)) == 0,
    ensures
        game.resolved().score.left == game.score.left + 1,
        game.resolved().score.right == game.score.right,
        game.resolved().ball is None,
{
}

/// A ball in the right scoring zone alone counts exactly one point on the
/// right and none on the left, and is gone after the tick.
pub proof fn right_zone_scores_right(game: GameView, ball: Ball)
    requires
        game.wf(),
        game.ball == Some(ball),
        game.score_has_room(),
        hits(game.colliders, ball.bounds(), Some(Side::Right)) == 1,
        hits(game.colliders, ball.bounds(), Some(Side::Left)) == 0,
    ensures
        game.resolved().score.right == game.score.right + 1,
        game.resolved().score.left == game.score.left,
        game.resolved().ball is None,
{
}

/// Settling a tick never takes a point away.
pub proof fn score_never_falls(game: GameView)
    requires
        game.wf(),
        game.score_has_room(),
    ensures
        game.resolved().score.left >= game.score.left,
        game.resolved().score.right >= game.score.right,
{
}

/// A point puts the game into the respawning state, without a ball and with
/// the respawn timer at zero.
pub proof fn point_starts_respawn(game: GameView, ball: Ball)
    requires
        game.wf(),
        game.ball == Some(ball),
        hits(game.colliders, ball.bounds(), Some(Side::Left)) + hits(
            game.colliders,
            ball.bounds(),
            Some(Side::Right),
        ) > 0,
    ensures
        game.resolved().state is Respawning,
        game.resolved().ball is None,
        game.resolved().respawn_timer == Some(
            Countdown { elapsed: 0, duration: RESPAWN_NANOS, finished: false },
        ),
{
}

/// Every step keeps the game well formed: in particular the game is
/// respawning exactly when there is no ball, and the respawn timer exists
/// exactly then.
pub proof fn steps_keep_game_well_formed(
    game: GameView,
    input: PaddleInput,
    dt: u64,
    window_height: u64,
    delta: u64,
)
    requires
        game.wf(),
    ensures
        GameView::start().wf(),
        game.paddle_moved(input, dt, window_height).wf(),
        game.integrated(dt).wf(),
        game.resolved().wf(),
        game.ball_stepped(dt).wf(),
        game.fixed_step(input, dt, window_height).wf(),
        game.respawn_ticked(delta).wf(),
{
    assert(starting_colliders()[0].is_paddle());
}

/// While the game is respawning, frames only let time pass on the respawn
/// timer: as long as the frames since the point add up to less than the
/// respawn time there is no ball; as soon as they reach it, exactly the served
/// ball is there, at the center and flying in the starting direction, and the
/// game is playing again. Nothing else changes.
pub proof fn respawn_waits_out_timer(game: GameView, timer: Countdown, deltas: Seq<u64>)
    requires
        game.wf(),
        game.respawn_timer == Some(timer),
    ensures
        timer.elapsed + total(deltas) < RESPAWN_NANOS ==> after_frames(game, deltas) == (GameView {
            respawn_timer: Some(
                Countdown {
                    elapsed: (timer.elapsed + total(deltas)) as u64,
                    duration: RESPAWN_NANOS,
                    finished: false,
                },
            ),
            ..game
        }),
        timer.elapsed + total(deltas) < RESPAWN_NANOS ==> after_frames(game, deltas).ball is None
            && after_frames(game, deltas).state is Respawning,
        timer.elapsed + total(deltas) >= RESPAWN_NANOS ==> after_frames(game, deltas) == (GameView {
            ball: Some(Ball::served()),
            state: GameState::Playing,
            respawn_timer: None,
            ..game
        }),
    decreases deltas.len(),
{
    if deltas.len() > 0 {
        respawn_waits_out_timer(game, timer, deltas.drop_last());
    }
}

/// After a point there is no ball until the frames since the point add up to
/// the respawn time; from then on exactly one ball is there again, the served
/// one, and the game is playing.
pub proof fn point_then_wait_serves_again(game: GameView, ball: Ball, deltas: Seq<u64>)
    requires
        game.wf(),
        game.ball == Some(ball),
        hits(game.colliders, ball.bounds(), Some(Side::Left)) + hits(
            game.colliders,
            ball.bounds(),
            Some(Side::Right),
        ) > 0,
    ensures
        total(deltas) < RESPAWN_NANOS ==> after_frames(game.resolved(), deltas).ball is None
            && after_frames(game.resolved(), deltas).state is Respawning,
        total(deltas) >= RESPAWN_NANOS ==> after_frames(game.resolved(), deltas).ball == Some(
            Ball::served(),
        ) && after_frames(game.resolved(), deltas).state is Playing,
{
    let timer = Countdown { elapsed: 0, duration: RESPAWN_NANOS, finished: false };
    respawn_waits_out_timer(game.resolved(), timer, deltas);
}

/// While the game is respawning, a fixed tick moves the player's paddle and
/// nothing else: no ball appears and the respawn timer does not run.
pub proof fn fixed_tick_leaves_respawn_alone(
    game: GameView,
    input: PaddleInput,
    dt: u64,
    window_height: u64,
)
    requires
        game.wf(),
        game.state is Respawning,
    ensures
        game.fixed_step(input, dt, window_height) == game.paddle_moved(input, dt, window_height),
        game.fixed_step(input, dt, window_height).ball is None,
        game.fixed_step(input, dt, window_height).state is Respawning,
        game.fixed_step(input, dt, window_height).respawn_timer == game.respawn_timer,
        game.fixed_step(input, dt, window_height).score == game.score,
{
}

/// While a ball is in play, frames change nothing.
pub proof fn frames_leave_play_alone(game: GameView, deltas: Seq<u64>)
    requires
        game.wf(),
        game.state is Playing,
    ensures
        after_frames(game, deltas) == game,
    decreases deltas.len(),
{
    if deltas.len() > 0 {
        frames_leave_play_alone(game, deltas.drop_last());
    }
}

/// A ball without speed stays where it is, however many ticks pass and
/// however long they are.
pub proof fn ball_at_rest_stays(ball: Ball, dts: Seq<u64>)
    requires
        ball.velocity.x == 0,
        ball.velocity.y == 0,
    ensures
        flown(ball, dts) == ball,
    decreases dts.len(),
{
    if dts.len() > 0 {
        ball_at_rest_stays(ball, dts.drop_last());
    }
}

} // verus!
