//! The game as a whole: what is on the field, the score, and the state
//! machine that takes the ball away after a point and serves a new one.

use crate::config::{
    LEFT_SCORING_ZONE_X, OPPONENT_PADDLE_START_X, PLAYER_PADDLE_START_X, RESPAWN_NANOS,
    RIGHT_SCORING_ZONE_X,
};
use crate::entity::{Ball, Collider};
use crate::geometry::{Aabb, Vec2};
use crate::paddle::{
    has_room, lower_bound, move_paddle, moved_height, upper_bound, window_has_room, PaddleInput,
};
use crate::score::{Score, Side};
use crate::timer::Countdown;
use vstd::prelude::*;

verus! {

/// Whether a ball is in play or the game waits to serve the next one.
#[derive(Clone, Copy, Debug, PartialEq, Eq, Structural)]
pub enum GameState {
    Playing,
    Respawning,
}

/// Everything the rules read and change: the paddles and scoring zones, the
/// place of the player's paddle among them, the ball if one is in play, the
/// score, the state, and the respawn timer while one runs.
///
/// A game is made by `setup` or `new` and changed only by its own methods,
/// so it is well formed at all times.
#[derive(Clone, Debug, PartialEq, Eq)]
pub struct Game {
    colliders: Vec<Collider>,
    player: usize,
    ball: Option<Ball>,
    score: Score,
    state: GameState,
    respawn_timer: Option<Countdown>,
}

/// Why a fixed tick was not taken.
#[derive(Clone, Copy, Debug, PartialEq, Eq, Structural)]
pub enum StepError {
    /// The window is lower than a paddle, so there is no place to hold the
    /// paddle in.
    WindowTooSmall,
    /// A score counter has no room for the points of this tick.
    ScoreFull,
}

/// A game as the contracts see it.
///
/// `colliders` holds the paddles and the scoring zones; `player` is the
/// place of the player's paddle among them.
pub struct GameView {
    pub colliders: Seq<Collider>,
    pub player: int,
    pub ball: Option<Ball>,
    pub score: Score,
    pub state: GameState,
    pub respawn_timer: Option<Countdown>,
}

impl View for Game {
    type V = GameView;

    closed spec fn view(&self) -> GameView {
        GameView {
            colliders: self.colliders@,
            player: self.player as int,
            ball: self.ball,
            score: self.score,
            state: self.state,
            respawn_timer: self.respawn_timer,
        }
    }
}

/// How many of `colliders` carry the tag `kind` and overlap `ball_box`.
/// The tag `None` counts paddles, `Some(side)` the scoring zones of `side`.
pub open spec fn hits(colliders: Seq<Collider>, ball_box: Aabb, kind: Option<Side>) -> nat
    decreases colliders.len(),
{
    if colliders.len() == 0 {
        0
    } else {
        let last = colliders.last();
        let rest = hits(colliders.drop_last(), ball_box, kind);
        if last.scoring_zone == kind && ball_box.overlaps(last.bounds()) {
            rest + 1
        } else {
            rest
        }
    }
}

/// The field as the game starts: the player's paddle on the left, the
/// opponent's on the right, and a scoring zone behind each.
pub open spec fn starting_colliders() -> Seq<Collider> {
    seq![
        Collider::paddle_at(Vec2 { x: PLAYER_PADDLE_START_X, y: 0 }),
        Collider::paddle_at(Vec2 { x: OPPONENT_PADDLE_START_X, y: 0 }),
        Collider::zone_at(Vec2 { x: LEFT_SCORING_ZONE_X, y: 0 }, Side::Left),
        Collider::zone_at(Vec2 { x: RIGHT_SCORING_ZONE_X, y: 0 }, Side::Right),
    ]
}

impl GameView {
    /// What holds of a game at every moment:
    /// the player's paddle is one of the colliders and is a paddle;
    /// the game is respawning exactly when there is no ball;
    /// the respawn timer exists exactly while the game is respawning, runs
    /// for the respawn time and has not yet run out.
    pub open spec fn wf(self) -> bool {
        &&& 0 <= self.player < self.colliders.len()
        &&& self.colliders[self.player].is_paddle()
        &&& self.state is Respawning <==> self.ball is None
        &&& self.state is Respawning <==> self.respawn_timer is Some
        &&& self.ball matches Some(ball) ==> ball.wf()
        &&& self.respawn_timer matches Some(timer) ==> {
            &&& timer.duration == RESPAWN_NANOS
            &&& timer.elapsed < timer.duration
            &&& !timer.finished
        }
    }

    /// The game at its start.
    pub open spec fn start() -> GameView {
        GameView {
            colliders: starting_colliders(),
            player: 0,
            ball: Some(Ball::served()),
            score: Score { left: 0, right: 0 },
            state: GameState::Playing,
            respawn_timer: None,
        }
    }

    /// Whether a game can be made of these parts: the player's paddle is one
    /// of the colliders and is a paddle, and the ball's speed can be turned
    /// round.
    pub open spec fn fits(colliders: Seq<Collider>, player: int, ball: Ball) -> bool {
        &&& 0 <= player < colliders.len()
        &&& colliders[player].is_paddle()
        &&& ball.wf()
    }

    /// The game made of these parts, with the ball in play.
    pub open spec fn made(colliders: Seq<Collider>, player: int, ball: Ball, score: Score) -> GameView {
        GameView {
            colliders,
            player,
            ball: Some(ball),
            score,
            state: GameState::Playing,
            respawn_timer: None,
        }
    }

    /// The game after the player's paddle has moved for one tick.
    pub open spec fn paddle_moved(self, input: PaddleInput, dt: u64, window_height: u64) -> GameView {
        let paddle = self.colliders[self.player];
        let moved = Collider {
            position: Vec2 {
                x: paddle.position.x,
                y: moved_height(paddle.position.y, input, dt, window_height) as i64,
            },
            size: paddle.size,
            scoring_zone: paddle.scoring_zone,
        };
        GameView { colliders: self.colliders.update(self.player, moved), ..self }
    }

    /// The game after the ball, if there is one, has flown for `dt`
    /// nanoseconds.
    pub open spec fn integrated(self, dt: u64) -> GameView {
        match self.ball {
            Some(ball) => GameView { ball: Some(ball.advanced(dt)), ..self },
            None => self,
        }
    }

    /// Whether the score counters have room for the points that the ball's
    /// place earns in this tick.
    pub open spec fn score_has_room(self) -> bool {
        self.ball matches Some(ball) ==> {
            &&& self.score.left + hits(self.colliders, ball.bounds(), Some(Side::Left))
                <= usize::MAX
            &&& self.score.right + hits(self.colliders, ball.bounds(), Some(Side::Right))
                <= usize::MAX
        }
    }

    /// The game after the ball has been held against every collider.
    ///
    /// Without a ball nothing happens. With one, every scoring zone that the
    /// ball overlaps counts a point for its side, and every paddle that it
    /// overlaps turns its horizontal speed round. If any zone was hit the
    /// ball is gone, the game is respawning and a fresh respawn timer runs;
    /// otherwise the ball stays, bounced.
    pub open spec fn resolved(self) -> GameView {
        match self.ball {
            None => self,
            Some(ball) => {
                let left = hits(self.colliders, ball.bounds(), Some(Side::Left));
                let right = hits(self.colliders, ball.bounds(), Some(Side::Right));
                let paddles = hits(self.colliders, ball.bounds(), None);
                let score = Score {
                    left: (self.score.left + left) as usize,
                    right: (self.score.right + right) as usize,
                };
                if left + right > 0 {
                    GameView {
                        ball: None,
                        score,
                        state: GameState::Respawning,
                        respawn_timer: Some(
                            Countdown { elapsed: 0, duration: RESPAWN_NANOS, finished: false },
                        ),
                        ..self
                    }
                } else {
                    GameView { ball: Some(ball.bounced(paddles)), score, ..self }
                }
            },
        }
    }

    /// The game after `delta` more nanoseconds of waiting.
    ///
    /// While a ball is in play nothing happens. While the game is respawning
    /// the timer runs on; when it has reached the respawn time a new ball is
    /// served, the game is playing again and the timer is gone.
    pub open spec fn respawn_ticked(self, delta: u64) -> GameView {
        match self.respawn_timer {
            None => self,
            Some(timer) => {
                if timer.ticked(delta).finished {
                    GameView {
                        ball: Some(Ball::served()),
                        state: GameState::Playing,
                        respawn_timer: None,
                        ..self
                    }
                } else {
                    GameView { respawn_timer: Some(timer.ticked(delta)), ..self }
                }
            },
        }
    }

    /// The game after the ball has flown and has been held against the
    /// colliders, which happens only while a ball is in play.
    pub open spec fn ball_stepped(self, dt: u64) -> GameView {
        if self.state is Playing {
            self.integrated(dt).resolved()
        } else {
            self
        }
    }

    /// The game after one fixed tick: the paddle moves, then the ball flies,
    /// then collisions and points are settled.
    pub open spec fn fixed_step(self, input: PaddleInput, dt: u64, window_height: u64) -> GameView {
        self.paddle_moved(input, dt, window_height).ball_stepped(dt)
    }

    /// Whether a fixed tick can be taken: the window has room for a paddle
    /// and the score counters have room for the points of this tick.
    pub open spec fn can_step(self, input: PaddleInput, dt: u64, window_height: u64) -> bool {
        &&& has_room(window_height)
        &&& self.state is Playing ==> self.paddle_moved(input, dt, window_height).integrated(
            dt,
        ).score_has_room()
    }
}

impl Game {
    pub open spec fn wf(&self) -> bool {
        self@.wf()
    }

    /// Sets the game up: two paddles, a ball at the center, two scoring
    /// zones, no points.
    pub fn setup() -> (game: Game)
        ensures
            game@ == GameView::start(),
            game.wf(),
    {
        let mut colliders: Vec<Collider> = Vec::new();
        colliders.push(Collider::paddle(Vec2::new(PLAYER_PADDLE_START_X, 0)));
        colliders.push(Collider::paddle(Vec2::new(OPPONENT_PADDLE_START_X, 0)));
        colliders.push(Collider::scoring_zone(Vec2::new(LEFT_SCORING_ZONE_X, 0), Side::Left));
        colliders.push(Collider::scoring_zone(Vec2::new(RIGHT_SCORING_ZONE_X, 0), Side::Right));
        assert(colliders@ =~= starting_colliders());
        Game {
            colliders,
            player: 0,
            ball: Some(Ball::serve()),
            score: Score::new(),
            state: GameState::Playing,
            respawn_timer: None,
        }
    }

    /// A game made of the given parts, with the ball in play; `None` if the
    /// parts do not fit.
    pub fn new(colliders: Vec<Collider>, player: usize, ball: Ball, score: Score) -> (made: Option<
        Game,
    >)
        ensures
            made is Some <==> GameView::fits(colliders@, player as int, ball),
            made matches Some(game) ==> game.wf() && game@ == GameView::made(
                colliders@,
                player as int,
                ball,
                score,
            ),
    {
        if player >= colliders.len() {
            return None;
        }
        if colliders[player].scoring_zone.is_some() {
            return None;
        }
        if ball.velocity.x == i64::MIN {
            return None;
        }
        Some(
            Game {
                colliders,
                player,
                ball: Some(ball),
                score,
                state: GameState::Playing,
                respawn_timer: None,
            },
        )
    }

    /// The paddles and scoring zones.
    pub fn colliders(&self) -> (colliders: &Vec<Collider>)
        ensures
            colliders@ == self@.colliders,
    {
        &self.colliders
    }

    /// The place of the player's paddle among the colliders.
    pub fn player(&self) -> (player: usize)
        ensures
            player == self@.player,
    {
        self.player
    }

    /// The ball, if one is in play.
    pub fn ball(&self) -> (ball: Option<Ball>)
        ensures
            ball == self@.ball,
    {
        self.ball
    }

    pub fn score(&self) -> (score: Score)
        ensures
            score == self@.score,
    {
        self.score
    }

    pub fn state(&self) -> (state: GameState)
        ensures
            state == self@.state,
    {
        self.state
    }

    /// The respawn timer, while the game is respawning.
    pub fn respawn_timer(&self) -> (timer: Option<Countdown>)
        ensures
            timer == self@.respawn_timer,
    {
        self.respawn_timer
    }

    /// Moves the player's paddle for one tick of `dt` nanoseconds in a window
    /// of the given height. Down wins over up; the paddle stays inside the
    /// window.
    pub fn move_player_paddle(&mut self, input: PaddleInput, dt: u64, window_height: u64)
        requires
            old(self).wf(),
            has_room(window_height),
        ensures
            final(self).wf(),
            final(self)@ == old(self)@.paddle_moved(input, dt, window_height),
            lower_bound(window_height) <= final(self)@.colliders[old(self)@.player].position.y
                <= upper_bound(window_height),
    {
        let mut paddle = self.colliders[self.player];
        let y = move_paddle(paddle.position.y, input, dt, window_height);
        paddle.position = Vec2 { x: paddle.position.x, y };
        self.colliders.set(self.player, paddle);
    }

    /// Moves the ball, if there is one, by its velocity over `dt`
    /// nanoseconds.
    pub fn apply_velocity(&mut self, dt: u64)
        requires
            old(self).wf(),
        ensures
            final(self).wf(),
            final(self)@ == old(self)@.integrated(dt),
    {
        match self.ball {
            Some(mut ball) => {
                ball.integrate(dt);
                self.ball = Some(ball);
            },
            None => {},
        }
    }

    /// Settles collisions and points for this tick.
    ///
    /// Every collider is looked at, also after one has been hit, so a ball
    /// that overlaps several of them meets each.
    pub fn handle_collisions(&mut self)
        requires
            old(self).wf(),
            old(self)@.score_has_room(),
        ensures
            final(self).wf(),
            final(self)@ == old(self)@.resolved(),
            final(self)@.score.left >= old(self)@.score.left,
            final(self)@.score.right >= old(self)@.score.right,
    {
        let mut ball = match self.ball {
            Some(ball) => ball,
            None => {
                return;
            },
        };
        let ball_box = ball.aabb();
        let ghost before = ball;
        let ghost all = self.colliders@;
        let mut left: usize = self.score.left;
        let mut right: usize = self.score.right;
        let mut scored = false;
        let mut i: usize = 0;
        while i < self.colliders.len()
            invariant
                i <= self.colliders.len(),
                self.colliders@ == all,
                ball_box == before.bounds(),
                before.wf(),
                ball == before.bounced(hits(all.take(i as int), ball_box, None)),
                left == old(self).score.left + hits(all.take(i as int), ball_box, Some(Side::Left)),
                right == old(self).score.right + hits(
                    all.take(i as int),
                    ball_box,
                    Some(Side::Right),
                ),
                scored <==> hits(all.take(i as int), ball_box, Some(Side::Left)) + hits(
                    all.take(i as int),
                    ball_box,
                    Some(Side::Right),
                ) > 0,
                old(self).score.left + hits(all, ball_box, Some(Side::Left)) <= usize::MAX,
                old(self).score.right + hits(all, ball_box, Some(Side::Right)) <= usize::MAX,
            decreases self.colliders.len() - i,
        {
            let collider = self.colliders[i];
            proof {
                assert(all.take(i + 1).drop_last() =~= all.take(i as int));
                assert(all.take(i + 1).last() == collider);
                lemma_hits_grow(all, i + 1, ball_box, Some(Side::Left));
                lemma_hits_grow(all, i + 1, ball_box, Some(Side::Right));
            }
            if ball_box.intersects(&collider.aabb()) {
                match collider.scoring_zone {
                    Some(Side::Left) => {
                        scored = true;
                        left = left + 1;
                    },
                    Some(Side::Right) => {
                        scored = true;
                        right = right + 1;
                    },
                    None => {
                        ball.reflect();
                    },
                }
            }
            i = i + 1;
        }
        assert(all.take(i as int) =~= all);
        self.score = Score { left, right };
        if scored {
            self.ball = None;
            self.state = GameState::Respawning;
            self.start_ball_respawn_timer();
        } else {
            self.ball = Some(ball);
        }
    }

    /// Starts the respawn timer afresh.
    fn start_ball_respawn_timer(&mut self)
        ensures
            *final(self) == (Game {
                respawn_timer: Some(
                    Countdown { elapsed: 0, duration: RESPAWN_NANOS, finished: false },
                ),
                ..*old(self)
            }),
    {
        self.respawn_timer = Some(Countdown::new(RESPAWN_NANOS));
    }

    /// Lets `delta` nanoseconds pass on the respawn timer and serves a new
    /// ball when the respawn time is over.
    pub fn tick_ball_respawn_timer(&mut self, delta: u64)
        requires
            old(self).wf(),
        ensures
            final(self).wf(),
            final(self)@ == old(self)@.respawn_ticked(delta),
    {
        match self.respawn_timer {
            Some(mut timer) => {
                timer.tick(delta);
                if timer.finished() {
                    self.ball = Some(Ball::serve());
                    self.state = GameState::Playing;
                    self.respawn_timer = None;
                } else {
                    self.respawn_timer = Some(timer);
                }
            },
            None => {},
        }
    }

    /// One fixed tick of `dt` nanoseconds: the paddle moves; then, while a
    /// ball is in play, the ball flies and collisions and points are settled.
    pub fn fixed_update(&mut self, input: PaddleInput, dt: u64, window_height: u64)
        requires
            old(self).wf(),
            old(self)@.can_step(input, dt, window_height),
        ensures
            final(self).wf(),
            final(self)@ == old(self)@.fixed_step(input, dt, window_height),
    {
        self.move_player_paddle(input, dt, window_height);
        match self.state {
            GameState::Playing => {
                self.apply_velocity(dt);
                self.handle_collisions();
            },
            GameState::Respawning => {},
        }
    }

    /// One fixed tick, if it can be taken; otherwise the game is left as it
    /// was and the reason is given.
    pub fn try_fixed_update(&mut self, input: PaddleInput, dt: u64, window_height: u64) -> (taken:
        Result<(), StepError>)
        requires
            old(self).wf(),
        ensures
            final(self).wf(),
            taken is Ok <==> old(self)@.can_step(input, dt, window_height),
            taken is Ok ==> final(self)@ == old(self)@.fixed_step(input, dt, window_height),
            taken is Err ==> final(self)@ == old(self)@,
            taken == Err::<(), StepError>(StepError::WindowTooSmall) <==> !has_room(window_height),
            taken == Err::<(), StepError>(StepError::ScoreFull) <==> has_room(window_height)
                && !old(self)@.can_step(input, dt, window_height),
    {
        if !window_has_room(window_height) {
            return Err(StepError::WindowTooSmall);
        }
        if let Some(ball) = self.ball {
            let mut flown = ball;
            flown.integrate(dt);
            let ball_box = flown.aabb();
            let left = count_hits(&self.colliders, &ball_box, Some(Side::Left));
            let right = count_hits(&self.colliders, &ball_box, Some(Side::Right));
            proof {
                let moved = self@.paddle_moved(input, dt, window_height);
                lemma_paddle_keeps_zone_hits(
                    self@.colliders,
                    self@.player,
                    moved.colliders[self@.player],
                    ball_box,
                    Side::Left,
                );
                lemma_paddle_keeps_zone_hits(
                    self@.colliders,
                    self@.player,
                    moved.colliders[self@.player],
                    ball_box,
                    Side::Right,
                );
            }
            if left > usize::MAX - self.score.left || right > usize::MAX - self.score.right {
                return Err(StepError::ScoreFull);
            }
        }
        self.fixed_update(input, dt, window_height);
        Ok(())
    }

    /// One frame in which `delta` nanoseconds have passed: while the game is
    /// respawning, the respawn timer runs.
    pub fn update(&mut self, delta: u64)
        requires
            old(self).wf(),
        ensures
            final(self).wf(),
            final(self)@ == old(self)@.respawn_ticked(delta),
    {
        match self.state {
            GameState::Respawning => {
                self.tick_ball_respawn_timer(delta);
            },
            GameState::Playing => {},
        }
    }
}

/// Whether two tags are the same.
fn same_kind(a: Option<Side>, b: Option<Side>) -> (same: bool)
    ensures
        same == (a == b),
{
    match (a, b) {
        (None, None) => true,
        (Some(Side::Left), Some(Side::Left)) => true,
        (Some(Side::Right), Some(Side::Right)) => true,
        _ => false,
    }
}

/// Counts the colliders that carry the tag `kind` and overlap `ball_box`.
pub fn count_hits(colliders: &Vec<Collider>, ball_box: &Aabb, kind: Option<Side>) -> (n: usize)
    ensures
        n == hits(colliders@, *ball_box, kind),
{
    let mut n: usize = 0;
    let mut i: usize = 0;
    while i < colliders.len()
        invariant
            i <= colliders.len(),
            n <= i,
            n == hits(colliders@.take(i as int), *ball_box, kind),
        decreases colliders.len() - i,
    {
        let collider = colliders[i];
        proof {
            assert(colliders@.take(i + 1).drop_last() =~= colliders@.take(i as int));
            assert(colliders@.take(i + 1).last() == collider);
        }
        if same_kind(collider.scoring_zone, kind) && ball_box.intersects(&collider.aabb()) {
            n = n + 1;
        }
        i = i + 1;
    }
    assert(colliders@.take(i as int) =~= colliders@);
    n
}

/// Putting one paddle in the place of another changes no count of hits on
/// scoring zones.
pub proof fn lemma_paddle_keeps_zone_hits(
    colliders: Seq<Collider>,
    place: int,
    paddle: Collider,
    ball_box: Aabb,
    side: Side,
)
    requires
        0 <= place < colliders.len(),
        colliders[place].is_paddle(),
        paddle.is_paddle(),
    ensures
        hits(colliders.update(place, paddle), ball_box, Some(side)) == hits(
            colliders,
            ball_box,
            Some(side),
        ),
    decreases colliders.len(),
{
    let changed = colliders.update(place, paddle);
    if place == colliders.len() - 1 {
        assert(changed.drop_last() =~= colliders.drop_last());
    } else {
        assert(changed.drop_last() =~= colliders.drop_last().update(place, paddle));
        lemma_paddle_keeps_zone_hits(colliders.drop_last(), place, paddle, ball_box, side);
    }
}

/// A longer stretch of the colliders holds at least as many hits as a
/// shorter one.
pub proof fn lemma_hits_grow(colliders: Seq<Collider>, n: int, ball_box: Aabb, kind: Option<Side>)
    requires
        0 <= n <= colliders.len(),
    ensures
        hits(colliders.take(n), ball_box, kind) <= hits(colliders, ball_box, kind),
    decreases colliders.len(),
{
    if n == colliders.len() {
        assert(colliders.take(n) =~= colliders);
    } else {
        assert(colliders.drop_last().take(n) =~= colliders.take(n));
        lemma_hits_grow(colliders.drop_last(), n, ball_box, kind);
    }
}

} // verus!
