//! The game: one bird, the pipes, the score and the state machine that ties
//! them together.

use vstd::prelude::*;
use crate::bird::{lemma_free_fall, lemma_triangle_closed_form, Bird};
use crate::geometry::Box;
use crate::heights::HeightSource;
use crate::pipe::{fits_fly_area, valid_upper_height, Pipe};
use crate::pipe_manager::{
    advance, first_unpassed, lemma_advance_keeps_order, lemma_first_unpassed,
    lemma_retire_takes_front, newest_x, ordered, retire, shift_all, spaced, spawn_due, wf_pipes,
    with_spawned, PipeManager,
};
use crate::tuning::{
    BIRD_HEIGHT, BIRD_WIDTH, BIRD_X, FLY_AREA, GRAVITY, JUMP, MIN_UPPER_HEIGHT, PIPE_SHIFT, SCALE,
    SPAWN_INTERVAL,
};

verus! {

/// The phase of a game.
#[derive(Clone, Copy, Debug, PartialEq, Eq, Structural)]
pub enum GameState {
    Start,
    Playing,
    Over,
}

/// What the page around the game can tell it: that the one action key was
/// pressed, that the time of a tick has come, or that a new game is wanted.
#[derive(Clone, Copy, Debug, PartialEq, Eq, Structural)]
pub enum Input {
    Action,
    Tick,
    Restart,
}

/// A game.
#[derive(Clone, Debug)]
pub struct RustyBird {
    bird: Bird,
    pipe_manager: PipeManager,
    score: i32,
    high_score: i32,
    time: i32,
    game_state: GameState,
}

/// What a game is at one moment.
pub struct GameView {
    pub bird: Bird,
    pub pipes: Seq<Pipe>,
    pub score: int,
    pub high_score: int,
    pub time: int,
    pub state: GameState,
}

impl View for RustyBird {
    type V = GameView;

    closed spec fn view(&self) -> GameView {
        GameView {
            bird: self.bird,
            pipes: self.pipe_manager@,
            score: self.score as int,
            high_score: self.high_score as int,
            time: self.time as int,
            state: self.game_state,
        }
    }
}

/// A game before its first tick, with the given high score.
pub open spec fn opening(high_score: int) -> GameView {
    GameView {
        bird: Bird::initial(),
        pipes: Seq::empty(),
        score: 0,
        high_score,
        time: 0,
        state: GameState::Start,
    }
}

/// The command to play starts a game that has not begun and does nothing
/// otherwise.
pub open spec fn play(g: GameView) -> GameView {
    if g.state == GameState::Start {
        GameView { state: GameState::Playing, ..g }
    } else {
        g
    }
}

/// The command to jump makes the bird jump while the game is being played and
/// does nothing otherwise.
pub open spec fn jump(g: GameView) -> GameView {
    if g.state == GameState::Playing {
        GameView { bird: g.bird.spec_jump(), ..g }
    } else {
        g
    }
}

/// The command to reset leads to a new game that keeps the high score.
pub open spec fn reset(g: GameView) -> GameView {
    opening(g.high_score)
}

/// The end of a game: the high score is raised to the score if that is
/// greater.
pub open spec fn finish(g: GameView) -> GameView {
    GameView {
        state: GameState::Over,
        high_score: if g.score > g.high_score {
            g.score
        } else {
            g.high_score
        },
        ..g
    }
}

/// First part of a tick: the tick is counted and the bird moves. If it dies,
/// the game ends.
pub open spec fn fly(g: GameView) -> GameView {
    let moved = GameView { time: g.time + 1, bird: g.bird.spec_update(), ..g };
    if moved.bird.dead {
        finish(moved)
    } else {
        moved
    }
}

/// The pipe that appears on the tick with this number, if one does, given the
/// height of its upper box.
pub open spec fn spawn_at(time: int, upper_h: i64) -> Option<Pipe> {
    if spawn_due(time) {
        Some(Pipe::spawned(upper_h))
    } else {
        None
    }
}

/// Second part of a tick: the pipes move, with the one that appears on this
/// tick.
pub open spec fn scroll(g: GameView, upper_h: i64) -> GameView {
    GameView { pipes: advance(g.pipes, spawn_at(g.time, upper_h)), ..g }
}

/// Whether the bird has reached a pipe, its right edge on the left edge of
/// the pipe or beyond it, and touches it.
pub open spec fn crashes(bird_box: Box, pipe: Pipe) -> bool {
    bird_box.spec_right() >= pipe.upper_pipe.spec_left() && pipe.spec_intersects(&bird_box)
}

/// Whether the bird has left a pipe behind.
pub open spec fn clears(bird_box: Box, pipe: Pipe) -> bool {
    bird_box.spec_left() > pipe.upper_pipe.spec_right()
}

/// Last part of a tick, on the oldest pipe that the bird has not passed: if
/// the bird crashes into it the game ends; if the bird has left it behind it
/// counts as passed and the score goes up by one. Without such a pipe nothing
/// happens.
pub open spec fn settle(g: GameView) -> GameView {
    match first_unpassed(g.pipes) {
        None => g,
        Some(i) => {
            let pipe = g.pipes[i];
            if crashes(g.bird.bird_box, pipe) {
                finish(g)
            } else if clears(g.bird.bird_box, pipe) {
                GameView {
                    pipes: g.pipes.update(i, Pipe { passed: true, ..pipe }),
                    score: g.score + 1,
                    ..g
                }
            } else {
                g
            }
        },
    }
}

/// One tick of a game, given the height of the upper box of the pipe that
/// appears if one appears on this tick. Only a game that is being played
/// moves.
pub open spec fn tick(g: GameView, upper_h: i64) -> GameView {
    if g.state != GameState::Playing {
        g
    } else if fly(g).state == GameState::Over {
        fly(g)
    } else {
        settle(scroll(fly(g), upper_h))
    }
}

/// What the action key does to a game, one command by the state of the
/// game: it starts a game that has not begun, it makes the bird jump in a
/// game that is being played, and it leads from a game that is over to a new
/// one.
pub open spec fn act(g: GameView) -> GameView {
    match g.state {
        GameState::Start => play(g),
        GameState::Playing => jump(g),
        GameState::Over => reset(g),
    }
}

/// A game after `n` ticks on each of which a pipe that appears has the
/// given height.
pub open spec fn ticks(g: GameView, n: nat, upper_h: i64) -> GameView
    decreases n,
{
    if n == 0 {
        g
    } else {
        tick(ticks(g, (n - 1) as nat, upper_h), upper_h)
    }
}

/// What holds of a game at every moment.
pub open spec fn wf_view(g: GameView) -> bool {
    &&& g.bird.bird_box.w == BIRD_WIDTH
    &&& g.bird.bird_box.h == BIRD_HEIGHT
    &&& g.bird.bird_box.x == BIRD_X
    &&& 0 <= g.bird.bird_box.y <= FLY_AREA
    &&& !g.bird.dead ==> g.bird.bird_box.spec_bot() <= FLY_AREA
    &&& JUMP <= g.bird.speed <= GRAVITY * g.time
    &&& g.bird.dead ==> g.state == GameState::Over
    &&& wf_pipes(g.pipes)
    &&& spaced(g.pipes)
    &&& g.state == GameState::Playing && g.pipes.len() > 0 ==> g.pipes.last().upper_pipe.x
        == newest_x(g.time)
    &&& 0 <= g.score <= g.time <= i32::MAX
    &&& 0 <= g.high_score <= i32::MAX
    &&& g.state == GameState::Over ==> g.score <= g.high_score
    &&& g.state == GameState::Start ==> g == opening(g.high_score)
}

impl RustyBird {
    /// The invariant of a game.
    pub open spec fn wf(&self) -> bool {
        wf_view(self@)
    }

    /// A game that has not begun, with no high score yet.
    pub fn new() -> (r: RustyBird)
        ensures
            r@ == opening(0),
            r.wf(),
    {
        RustyBird {
            bird: Bird::new(),
            pipe_manager: PipeManager::new(),
            score: 0,
            high_score: 0,
            time: 0,
            game_state: GameState::Start,
        }
    }

    /// Starts the game if it has not begun.
    pub fn play_game(&mut self)
        requires
            old(self).wf(),
        ensures
            final(self)@ == play(old(self)@),
            final(self).wf(),
    {
        if self.game_state == GameState::Start {
            self.game_state = GameState::Playing;
        }
    }

    /// Makes the bird jump if the game is being played.
    pub fn jump(&mut self)
        requires
            old(self).wf(),
        ensures
            final(self)@ == jump(old(self)@),
            final(self).wf(),
    {
        if self.game_state == GameState::Playing {
            self.bird.jump();
        }
    }

    /// Goes back to a game that has not begun. The high score stays.
    pub fn reset_game(&mut self)
        requires
            old(self).wf(),
        ensures
            final(self)@ == reset(old(self)@),
            final(self).wf(),
    {
        self.bird.reset();
        self.pipe_manager.reset();
        self.score = 0;
        self.time = 0;
        self.game_state = GameState::Start;
    }

    /// The phase the game is in.
    pub fn get_game_state(&self) -> (r: GameState)
        ensures
            r == self@.state,
    {
        self.game_state
    }

    /// The number of pipes passed in this game.
    pub fn get_score(&self) -> (r: i32)
        ensures
            r == self@.score,
    {
        self.score
    }

    /// The best score at the end of a game so far.
    pub fn get_high_score(&self) -> (r: i32)
        ensures
            r == self@.high_score,
    {
        self.high_score
    }

    /// The number of ticks played in this game.
    pub fn get_time(&self) -> (r: i32)
        ensures
            r == self@.time,
    {
        self.time
    }

    /// The bird, to be read.
    pub fn bird(&self) -> (r: &Bird)
        ensures
            *r == self@.bird,
    {
        &self.bird
    }

    /// The pipes, to be read.
    pub fn pipe_manager(&self) -> (r: &PipeManager)
        ensures
            r@ == self@.pipes,
    {
        &self.pipe_manager
    }

    /// One tick. On a tick on which a pipe appears, its gap is placed by the
    /// next height of the source. Returns the state of the game after the
    /// tick.
    pub fn update(&mut self, source: &mut HeightSource) -> (r: GameState)
        requires
            old(self).wf(),
            old(self)@.state == GameState::Playing ==> old(self)@.time < i32::MAX,
        ensures
            exists|upper_h: i64|
                valid_upper_height(upper_h as int) && upper_h % SCALE == 0 && final(self)@
                    == #[trigger] tick(old(self)@, upper_h),
            final(self).wf(),
            r == final(self)@.state,
    {
        if !self.begin_tick() {
            proof {
                lemma_tick_keeps_wf(old(self)@, MIN_UPPER_HEIGHT);
            }
            return self.game_state;
        }
        let ghost flown = self@;
        self.pipe_manager.update(self.time, source);
        let ghost upper_h: i64 = if spawn_due(flown.time) {
            choose|upper_h: i64|
                valid_upper_height(upper_h as int) && upper_h % SCALE == 0 && self@.pipes
                    == advance(flown.pipes, Some(#[trigger] Pipe::spawned(upper_h)))
        } else {
            MIN_UPPER_HEIGHT
        };
        proof {
            lemma_tick_keeps_wf(old(self)@, upper_h);
        }
        self.end_tick()
    }

    /// One tick, with the height of the upper box of the pipe that appears if
    /// one appears on this tick. Returns the state of the game after the
    /// tick.
    pub fn step(&mut self, upper_h: i64) -> (r: GameState)
        requires
            old(self).wf(),
            old(self)@.state == GameState::Playing ==> old(self)@.time < i32::MAX,
            fits_fly_area(upper_h as int),
        ensures
            final(self)@ == tick(old(self)@, upper_h),
            final(self).wf(),
            r == final(self)@.state,
    {
        proof {
            lemma_tick_keeps_wf(old(self)@, upper_h);
        }
        if !self.begin_tick() {
            return self.game_state;
        }
        let spawned: Option<Pipe> = if self.time % SPAWN_INTERVAL == 0 {
            Some(Pipe::with_upper_height(upper_h))
        } else {
            None
        };
        self.pipe_manager.advance(spawned);
        self.end_tick()
    }

    /// Does what an input asks for: the action key gives the one command
    /// that the state of the game calls for, a tick is a tick, and a restart
    /// is a reset. Returns the state of the game after it.
    pub fn handle(&mut self, input: Input, source: &mut HeightSource) -> (r: GameState)
        requires
            old(self).wf(),
            input == Input::Tick && old(self)@.state == GameState::Playing ==> old(self)@.time
                < i32::MAX,
        ensures
            match input {
                Input::Action => final(self)@ == act(old(self)@),
                Input::Tick => exists|upper_h: i64|
                    valid_upper_height(upper_h as int) && upper_h % SCALE == 0 && final(self)@
                        == #[trigger] tick(old(self)@, upper_h),
                Input::Restart => final(self)@ == reset(old(self)@),
            },
            final(self).wf(),
            r == final(self)@.state,
    {
        match input {
            Input::Action => match self.game_state {
                GameState::Start => {
                    self.play_game();
                },
                GameState::Playing => {
                    self.jump();
                },
                GameState::Over => {
                    self.reset_game();
                },
            },
            Input::Tick => {
                self.update(source);
            },
            Input::Restart => {
                self.reset_game();
            },
        }
        self.game_state
    }

    /// Counts the tick and moves the bird, if the game is being played, and
    /// ends the game if the bird dies. Says whether the tick goes on.
    fn begin_tick(&mut self) -> (goes_on: bool)
        requires
            old(self).wf(),
            old(self)@.state == GameState::Playing ==> old(self)@.time < i32::MAX,
        ensures
            goes_on == (old(self)@.state == GameState::Playing && fly(old(self)@).state
                != GameState::Over),
            old(self)@.state != GameState::Playing ==> final(self)@ == old(self)@,
            old(self)@.state == GameState::Playing ==> final(self)@ == fly(old(self)@),
    {
        if self.game_state != GameState::Playing {
            return false;
        }
        self.time = self.time + 1;
        self.bird.update();
        if self.bird.dead {
            self.game_state = GameState::Over;
            self.update_high_score();
            return false;
        }
        true
    }

    /// Looks at the oldest pipe that the bird has not passed: ends the game on
    /// a crash, counts the pipe once the bird has left it behind.
    fn end_tick(&mut self) -> (r: GameState)
        requires
            wf_view(settle(old(self)@)),
            wf_pipes(old(self)@.pipes),
            old(self)@.bird.bird_box.w == BIRD_WIDTH,
            old(self)@.bird.bird_box.x == BIRD_X,
            old(self)@.score < i32::MAX,
        ensures
            final(self)@ == settle(old(self)@),
            r == final(self)@.state,
    {
        if self.pipe_manager.pipes.len() == 0 {
            return self.game_state;
        }
        let bird_box: Box = self.bird.bird_box;
        let mut crashed: bool = false;
        proof {
            lemma_first_unpassed(old(self)@.pipes);
        }
        match self.pipe_manager.get_first_unpassed() {
            None => {
                return self.game_state;
            },
            Some(curr_pipe) => {
                if bird_box.right() >= curr_pipe.upper_pipe.left() && curr_pipe.intersects(
                    &bird_box,
                ) {
                    crashed = true;
                } else if bird_box.left() > curr_pipe.upper_pipe.right() {
                    curr_pipe.passed = true;
                    self.score = self.score + 1;
                }
            },
        }
        assert(self@.pipes =~= settle(old(self)@).pipes);
        if crashed {
            self.game_state = GameState::Over;
            self.update_high_score();
        }
        self.game_state
    }

    /// Raises the high score to the score if that is greater.
    fn update_high_score(&mut self)
        ensures
            final(self)@ == (GameView {
                high_score: if old(self)@.score > old(self)@.high_score {
                    old(self)@.score
                } else {
                    old(self)@.high_score
                },
                ..old(self)@
            }),
    {
        if self.score > self.high_score {
            self.high_score = self.score;
        }
    }
}

/// The pipes as the last part of a tick finds them.
pub open spec fn pipes_in_play(g: GameView, upper_h: i64) -> Seq<Pipe> {
    if g.state == GameState::Playing && fly(g).state != GameState::Over {
        scroll(fly(g), upper_h).pipes
    } else {
        g.pipes
    }
}

/// Whether the pipe at a position counts as passed after having stood at
/// that position as not passed.
pub open spec fn turns_passed(before: Seq<Pipe>, after: Seq<Pipe>, i: int) -> bool {
    0 <= i < before.len() && i < after.len() && !before[i].passed && after[i].passed
}

/// A pipe is counted once. In a tick no pipe goes back from passed to not
/// passed and nothing else of a pipe changes; at most one pipe becomes
/// passed; and the score goes up by one if a pipe becomes passed and stays
/// as it is if none does.
pub proof fn lemma_single_scoring(g: GameView, upper_h: i64)
    ensures
        ({
            let before = pipes_in_play(g, upper_h);
            let after = tick(g, upper_h);
            &&& after.pipes.len() == before.len()
            &&& forall|i: int|
                0 <= i < before.len() ==> (#[trigger] after.pipes[i]) == before[i]
                    || turns_passed(before, after.pipes, i) && after.pipes[i] == (Pipe {
                    passed: true,
                    ..before[i]
                })
            &&& forall|i: int, j: int|
                turns_passed(before, after.pipes, i) && turns_passed(before, after.pipes, j) ==> i
                    == j
            &&& (exists|i: int| turns_passed(before, after.pipes, i)) ==> after.score == g.score
                + 1
            &&& !(exists|i: int| turns_passed(before, after.pipes, i)) ==> after.score == g.score
        }),
{
    let before = pipes_in_play(g, upper_h);
    let after = tick(g, upper_h);
    lemma_first_unpassed(before);
    if g.state == GameState::Playing && fly(g).state != GameState::Over {
        let s = scroll(fly(g), upper_h);
        match first_unpassed(before) {
            None => {},
            Some(i) => {
                if !crashes(s.bird.bird_box, before[i]) && clears(s.bird.bird_box, before[i]) {
                    assert(turns_passed(before, after.pipes, i));
                }
            },
        }
    }
}

/// When a point is given. The score goes up by one on a tick that goes on to
/// its last part, finds a pipe that the bird has not passed, and finds that
/// the bird does not crash into the oldest such pipe and has left it behind;
/// the game is then still being played and that pipe, and no other, has
/// become passed. On every other tick the score stays and the last part of
/// the tick leaves the pipes as it found them.
pub proof fn lemma_point_given(g: GameView, upper_h: i64)
    ensures
        ({
            let before = pipes_in_play(g, upper_h);
            let after = tick(g, upper_h);
            let goes_on = g.state == GameState::Playing && fly(g).state != GameState::Over;
            match first_unpassed(before) {
                Some(i) if goes_on && !crashes(fly(g).bird.bird_box, before[i]) && clears(
                    fly(g).bird.bird_box,
                    before[i],
                ) => {
                    &&& after.score == g.score + 1
                    &&& after.state == GameState::Playing
                    &&& after.pipes == before.update(i, Pipe { passed: true, ..before[i] })
                },
                _ => after.score == g.score && after.pipes == before,
            }
        }),
{
}

/// How a game ends. A tick that ends a game that was being played leaves the
/// score as it was and makes the high score the greater of the two; so where
/// the score has reached the high score, the two are equal at the end.
pub proof fn lemma_end_of_game(g: GameView, upper_h: i64)
    requires
        g.state == GameState::Playing,
        tick(g, upper_h).state == GameState::Over,
    ensures
        tick(g, upper_h).score == g.score,
        tick(g, upper_h).high_score == if g.score > g.high_score {
            g.score
        } else {
            g.high_score
        },
        g.high_score <= g.score ==> tick(g, upper_h).high_score == tick(g, upper_h).score,
{
}

/// A game in which nobody jumps: for 38 ticks the bird falls as a bird left
/// alone does and nothing else changes, and the 39th tick ends the game,
/// whatever the high score and the heights of the pipes.
pub proof fn lemma_game_without_jump(high_score: int, n: nat, upper_h: i64)
    requires
        n <= 39,
    ensures
        n <= 38 ==> ticks(play(opening(high_score)), n, upper_h) == (GameView {
            bird: Bird::initial().spec_fall(n),
            time: n as int,
            state: GameState::Playing,
            ..opening(high_score)
        }),
        n == 39 ==> ticks(play(opening(high_score)), n, upper_h).state == GameState::Over,
        n == 39 ==> ticks(play(opening(high_score)), n, upper_h).score == 0,
    decreases n,
{
    if n > 0 {
        let m: nat = (n - 1) as nat;
        let before = ticks(play(opening(high_score)), m, upper_h);
        lemma_game_without_jump(high_score, m, upper_h);
        lemma_triangle_closed_form(n);
        lemma_free_fall(Bird::initial(), n);
        assert(before.bird.spec_update() == Bird::initial().spec_fall(n));
        if n <= 38 {
            assert(n * (n + 1) <= 38 * 39) by (nonlinear_arith)
                requires
                    n <= 38,
            ;
            reveal(Seq::filter);
            assert(shift_all(before.pipes) =~= Seq::<Pipe>::empty());
        } else {
            assert(n * (n + 1) == 39 * 40) by (nonlinear_arith)
                requires
                    n == 39,
            ;
        }
    }
}

/// Resetting twice is resetting once, and resetting keeps the high score.
pub proof fn lemma_reset_idempotent(g: GameView)
    ensures
        reset(reset(g)) == reset(g),
        reset(g).high_score == g.high_score,
{
}

/// Jumps do not add up: after a jump, a tick and a second jump, the speed of
/// the bird of a game that is still being played is the jump speed; and a
/// jump right after a jump changes nothing.
pub proof fn lemma_jump_resets(g: GameView, upper_h: i64)
    ensures
        jump(jump(g)) == jump(g),
        g.state == GameState::Playing ==> jump(g).bird.speed == JUMP,
        tick(jump(g), upper_h).state == GameState::Playing ==> jump(
            tick(jump(g), upper_h),
        ).bird.speed == JUMP,
{
}

/// The pipes keep their distance: if neighbours stand one spawn interval of
/// scrolling apart and the newest pipe stands where the tick counter puts
/// it, the same holds after the pipes have moved on the next tick.
pub proof fn lemma_scroll_keeps_spacing(pipes: Seq<Pipe>, time: int, upper_h: i64)
    requires
        wf_pipes(pipes),
        spaced(pipes),
        time >= 0,
        pipes.len() > 0 ==> pipes.last().upper_pipe.x == newest_x(time),
        fits_fly_area(upper_h as int),
    ensures
        spaced(advance(pipes, spawn_at(time + 1, upper_h))),
        advance(pipes, spawn_at(time + 1, upper_h)).len() > 0 ==> advance(
            pipes,
            spawn_at(time + 1, upper_h),
        ).last().upper_pipe.x == newest_x(time + 1),
{
    let moved = shift_all(with_spawned(pipes, spawn_at(time + 1, upper_h)));
    assert(spaced(moved));
    lemma_retire_takes_front(moved);
    let k: int = choose|k: int| 0 <= k <= moved.len() && retire(moved) == #[trigger] moved.skip(k);
    let kept = moved.skip(k);
    assert forall|i: int, j: int| 0 <= i && j == i + 1 && j < kept.len() implies (
    #[trigger] kept[j]).upper_pipe.x - (#[trigger] kept[i]).upper_pipe.x == SPAWN_INTERVAL
        * PIPE_SHIFT by {
        assert(moved[j + k].upper_pipe.x - moved[i + k].upper_pipe.x == SPAWN_INTERVAL
            * PIPE_SHIFT);
    }
}

/// A tick keeps the invariant of a game; with it, the pipes stay in the order
/// in which they appeared, and neighbours stay one spawn interval of
/// scrolling apart.
pub proof fn lemma_tick_keeps_wf(g: GameView, upper_h: i64)
    requires
        wf_view(g),
        g.state == GameState::Playing ==> g.time < i32::MAX,
        fits_fly_area(upper_h as int),
    ensures
        wf_view(tick(g, upper_h)),
        ordered(tick(g, upper_h).pipes),
        spaced(tick(g, upper_h).pipes),
        g.state == GameState::Playing && fly(g).state != GameState::Over ==> wf_view(
            scroll(fly(g), upper_h),
        ),
{
    if g.state == GameState::Playing {
        let f = fly(g);
        if f.state != GameState::Over {
            lemma_advance_keeps_order(f.pipes, spawn_at(f.time, upper_h));
            lemma_scroll_keeps_spacing(g.pipes, g.time, upper_h);
            lemma_settle_keeps_wf(scroll(f, upper_h));
        }
    }
}

/// The last part of a tick keeps the invariant of a game that is being
/// played and has room for one more point.
pub proof fn lemma_settle_keeps_wf(g: GameView)
    requires
        wf_view(g),
        g.state == GameState::Playing,
        g.score < g.time,
    ensures
        wf_view(settle(g)),
{
    lemma_first_unpassed(g.pipes);
}

} // verus!
