//! The bird: a box that falls under gravity and jumps on command.

use vstd::prelude::*;
use crate::geometry::Box;
use crate::tuning::{BIRD_HEIGHT, BIRD_START_Y, BIRD_WIDTH, BIRD_X, FLY_AREA, GRAVITY, JUMP};

verus! {

/// The player's body.
#[derive(Clone, Copy, Debug, PartialEq, Eq, Structural)]
pub struct Bird {
    pub bird_box: Box,
    pub speed: i64,
    pub dead: bool,
}

/// The sum `1 + 2 + ... + n`.
pub open spec fn triangle(n: nat) -> nat
    decreases n,
{
    if n == 0 {
        0
    } else {
        n + triangle((n - 1) as nat)
    }
}

impl Bird {
    /// The bird as it is at the start of every game: at rest and alive, in
    /// the middle of the fly area.
    pub open spec fn initial() -> Bird {
        Bird {
            bird_box: Box { w: BIRD_WIDTH, h: BIRD_HEIGHT, x: BIRD_X, y: BIRD_START_Y },
            speed: 0,
            dead: false,
        }
    }

    /// The speed after one tick: gravity is added once.
    pub open spec fn next_speed(&self) -> int {
        self.speed + GRAVITY
    }

    /// Where the new speed carries the top edge in one tick, stopped at the
    /// ceiling.
    pub open spec fn next_top(&self) -> int {
        let moved: int = self.bird_box.y + self.next_speed();
        if moved < 0 {
            0
        } else {
            moved
        }
    }

    /// Whether the bottom edge crosses the floor in one tick.
    pub open spec fn hits_floor(&self) -> bool {
        self.next_top() + self.bird_box.h > FLY_AREA
    }

    /// The bird after one tick. A bird that crosses the floor is put on the
    /// floor line and dies; one that crosses the ceiling is stopped there and
    /// lives.
    pub open spec fn spec_update(&self) -> Bird {
        let y: int = if self.hits_floor() {
            FLY_AREA as int
        } else {
            self.next_top()
        };
        Bird {
            bird_box: Box { y: y as i64, ..self.bird_box },
            speed: self.next_speed() as i64,
            dead: self.dead || self.hits_floor(),
        }
    }

    /// The bird after a jump: its speed is the jump speed, whatever it was.
    pub open spec fn spec_jump(&self) -> Bird {
        Bird { speed: JUMP, ..*self }
    }

    /// The bird after `n` ticks without a jump.
    pub open spec fn spec_fall(&self, n: nat) -> Bird
        decreases n,
    {
        if n == 0 {
            *self
        } else {
            self.spec_fall((n - 1) as nat).spec_update()
        }
    }

    /// The bird at the start of a game.
    pub fn new() -> (r: Bird)
        ensures
            r == Bird::initial(),
    {
        Bird {
            bird_box: Box::new(BIRD_WIDTH, BIRD_HEIGHT, BIRD_X, BIRD_START_Y),
            speed: 0,
            dead: false,
        }
    }

    /// Puts the bird back to its starting position, at rest and alive. The
    /// size of its box is kept.
    pub fn reset(&mut self)
        ensures
            *final(self) == (Bird {
                bird_box: Box { x: BIRD_X, y: BIRD_START_Y, ..old(self).bird_box },
                speed: 0,
                dead: false,
            }),
    {
        self.bird_box.x = BIRD_X;
        self.bird_box.y = BIRD_START_Y;
        self.speed = 0;
        self.dead = false;
    }

    /// Sets the speed to the jump speed, in the air as on any other tick.
    pub fn jump(&mut self)
        ensures
            *final(self) == old(self).spec_jump(),
    {
        self.speed = JUMP;
    }

    /// Advances the bird by one tick.
    pub fn update(&mut self)
        requires
            old(self).bird_box.wf(),
            old(self).next_speed() <= i64::MAX,
        ensures
            *final(self) == old(self).spec_update(),
            final(self).speed == old(self).next_speed(),
            final(self).dead == (old(self).dead || old(self).hits_floor()),
            final(self).bird_box.y == if old(self).hits_floor() {
                FLY_AREA as int
            } else {
                old(self).next_top()
            },
    {
        self.speed = self.speed + GRAVITY;
        let moved: i128 = self.bird_box.y as i128 + self.speed as i128;
        let top: i128 = if moved < 0 {
            0
        } else {
            moved
        };
        if top + self.bird_box.h as i128 > FLY_AREA as i128 {
            self.bird_box.y = FLY_AREA;
            self.dead = true;
        } else {
            self.bird_box.y = top as i64;
        }
    }
}

/// Twice the sum `1 + 2 + ... + n` is `n * (n + 1)`.
pub proof fn lemma_triangle_closed_form(n: nat)
    ensures
        2 * triangle(n) == n * (n + 1),
    decreases n,
{
    if n > 0 {
        let m: nat = (n - 1) as nat;
        lemma_triangle_closed_form(m);
        assert(m * (m + 1) + 2 * n == n * (n + 1)) by (nonlinear_arith)
            requires
                m + 1 == n,
        ;
    } else {
        assert(n * (n + 1) == 0) by (nonlinear_arith)
            requires
                n == 0,
        ;
    }
}

/// A jump sets the speed and does not add to it: after a jump, a tick and a
/// second jump the speed is the jump speed, and a jump right after a jump
/// changes nothing.
pub proof fn lemma_jump_resets(b: Bird)
    ensures
        b.spec_jump().speed == JUMP,
        b.spec_jump().spec_update().spec_jump().speed == JUMP,
        b.spec_jump().spec_jump() == b.spec_jump(),
{
}

/// A bird at rest inside the fly area that never jumps falls by the
/// triangular numbers: as long as it has not crossed the floor, after `n`
/// ticks its speed is `n` times the gravity and it has fallen by the gravity
/// times `1 + 2 + ... + n`; and it is dead from the first tick on at which
/// that distance exceeds the room between its bottom edge and the floor. So
/// the tick of its death depends on that room and on the gravity alone.
pub proof fn lemma_free_fall(b: Bird, n: nat)
    requires
        b.bird_box.wf(),
        b.bird_box.y >= 0,
        b.bird_box.spec_bot() <= FLY_AREA,
        b.speed == 0,
        !b.dead,
    ensures
        b.bird_box.spec_bot() + GRAVITY * triangle(n) <= FLY_AREA ==> {
            &&& !b.spec_fall(n).dead
            &&& b.spec_fall(n).speed == GRAVITY * n
            &&& b.spec_fall(n).bird_box.y == b.bird_box.y + GRAVITY * triangle(n)
            &&& b.spec_fall(n).bird_box.x == b.bird_box.x
            &&& b.spec_fall(n).bird_box.w == b.bird_box.w
            &&& b.spec_fall(n).bird_box.h == b.bird_box.h
        },
        b.bird_box.spec_bot() + GRAVITY * triangle(n) > FLY_AREA ==> b.spec_fall(n).dead,
    decreases n,
{
    if n > 0 {
        let m: nat = (n - 1) as nat;
        lemma_free_fall(b, m);
        lemma_triangle_closed_form(m);
        assert(m <= triangle(m)) by (nonlinear_arith)
            requires
                2 * triangle(m) == m * (m + 1),
        ;
        assert(GRAVITY * triangle(n) == GRAVITY * triangle(m) + GRAVITY * n) by (nonlinear_arith)
            requires
                triangle(n) == n + triangle(m),
        ;
        assert(GRAVITY * n == GRAVITY * m + GRAVITY) by (nonlinear_arith)
            requires
                n == m + 1,
        ;
        assert(GRAVITY * triangle(m) >= GRAVITY * m >= 0) by (nonlinear_arith)
            requires
                m <= triangle(m),
                GRAVITY > 0,
        ;
    }
}

/// The tick on which a bird at rest that never jumps dies depends on the
/// room below it and on nothing else of the bird: two such birds with their
/// bottom edges at the same height are dead after the same numbers of ticks.
pub proof fn lemma_fall_depends_on_room(a: Bird, b: Bird, n: nat)
    requires
        a.bird_box.wf(),
        a.bird_box.y >= 0,
        a.bird_box.spec_bot() <= FLY_AREA,
        a.speed == 0,
        !a.dead,
        b.bird_box.wf(),
        b.bird_box.y >= 0,
        b.bird_box.spec_bot() <= FLY_AREA,
        b.speed == 0,
        !b.dead,
        a.bird_box.spec_bot() == b.bird_box.spec_bot(),
    ensures
        a.spec_fall(n).dead == b.spec_fall(n).dead,
{
    lemma_free_fall(a, n);
    lemma_free_fall(b, n);
}

/// The bird of a new game, left alone, is alive after 38 ticks and dead after
/// 39.
pub proof fn lemma_initial_fall()
    ensures
        !Bird::initial().spec_fall(38).dead,
        Bird::initial().spec_fall(39).dead,
{
    lemma_triangle_closed_form(38);
    lemma_free_fall(Bird::initial(), 38);
    lemma_triangle_closed_form(39);
    lemma_free_fall(Bird::initial(), 39);
}

} // verus!
