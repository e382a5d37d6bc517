//! The pipes in play, oldest first.

use vstd::prelude::*;
use crate::heights::HeightSource;
use crate::pipe::{valid_upper_height, Pipe};
use crate::tuning::{PIPE_SHIFT, REMOVE_X, SCALE, SPAWN_INTERVAL, SPAWN_X};

verus! {

/// Owns the pipes in the order in which they appeared.
#[derive(Clone, Debug, PartialEq, Eq)]
pub struct PipeManager {
    pub pipes: Vec<Pipe>,
}

impl View for PipeManager {
    type V = Seq<Pipe>;

    open spec fn view(&self) -> Seq<Pipe> {
        self.pipes@
    }
}

/// Whether a pipe appears on the tick with this number.
pub open spec fn spawn_due(time: int) -> bool {
    time > 0 && time % (SPAWN_INTERVAL as int) == 0
}

/// No pipe is to the right of one that appeared after it.
pub open spec fn ordered(pipes: Seq<Pipe>) -> bool {
    forall|i: int, j: int|
        0 <= i < j < pipes.len() ==> pipes[i].upper_pipe.x <= pipes[j].upper_pipe.x
}

/// Every pipe is well formed and lies between the line at which pipes are
/// retired and the line at which they appear.
pub open spec fn in_field(pipes: Seq<Pipe>) -> bool {
    forall|i: int|
        0 <= i < pipes.len() ==> (#[trigger] pipes[i]).wf() && REMOVE_X < pipes[i].upper_pipe.x
            <= SPAWN_X
}

/// Neighbours stand as far apart as a pipe scrolls between two spawns.
pub open spec fn spaced(pipes: Seq<Pipe>) -> bool {
    forall|i: int, j: int|
        0 <= i && j == i + 1 && j < pipes.len() ==> (#[trigger] pipes[j]).upper_pipe.x - (
        #[trigger] pipes[i]).upper_pipe.x == SPAWN_INTERVAL * PIPE_SHIFT
}

/// Where the newest pipe stands after the tick with this number, if a pipe
/// has appeared by then.
pub open spec fn newest_x(time: int) -> int {
    SPAWN_X - PIPE_SHIFT * (time % (SPAWN_INTERVAL as int) + 1)
}

/// The pipes of a manager in a running game.
pub open spec fn wf_pipes(pipes: Seq<Pipe>) -> bool {
    in_field(pipes) && ordered(pipes)
}

/// A pipe as it may be handed to a manager: well formed, at the spawn
/// position.
pub open spec fn fresh(spawned: Option<Pipe>) -> bool {
    spawned matches Some(p) ==> p.wf() && p.upper_pipe.x == SPAWN_X
}

/// Whether both boxes of a pipe can scroll one step without leaving the
/// range of their coordinates.
pub open spec fn can_shift(p: Pipe) -> bool {
    p.upper_pipe.x - PIPE_SHIFT >= i64::MIN && p.lower_pipe.x - PIPE_SHIFT >= i64::MIN
}

/// The pipes with the new one, if there is one, behind them.
pub open spec fn with_spawned(pipes: Seq<Pipe>, spawned: Option<Pipe>) -> Seq<Pipe> {
    match spawned {
        Some(p) => pipes.push(p),
        None => pipes,
    }
}

/// Every pipe one scroll step further to the left.
pub open spec fn shift_all(pipes: Seq<Pipe>) -> Seq<Pipe> {
    pipes.map_values(|p: Pipe| p.spec_shift())
}

/// The test that a pipe stays in play.
pub open spec fn stays() -> spec_fn(Pipe) -> bool {
    |p: Pipe| !p.spec_removable()
}

/// The pipes that stay in play, in their order.
pub open spec fn retire(pipes: Seq<Pipe>) -> Seq<Pipe> {
    pipes.filter(stays())
}

/// One tick of the pipes: the new pipe, if any, is appended, every pipe
/// scrolls one step, and those that have left the field are retired.
pub open spec fn advance(pipes: Seq<Pipe>, spawned: Option<Pipe>) -> Seq<Pipe> {
    retire(shift_all(with_spawned(pipes, spawned)))
}

/// The position of the first pipe from `start` on that the bird has not
/// passed, if there is one.
pub open spec fn first_unpassed_from(pipes: Seq<Pipe>, start: int) -> Option<int>
    decreases pipes.len() - start,
{
    if start < 0 || start >= pipes.len() {
        None
    } else if !pipes[start].passed {
        Some(start)
    } else {
        first_unpassed_from(pipes, start + 1)
    }
}

/// The position of the oldest pipe that the bird has not passed, if there is
/// one.
pub open spec fn first_unpassed(pipes: Seq<Pipe>) -> Option<int> {
    first_unpassed_from(pipes, 0)
}

impl PipeManager {
    /// The pipes of this manager are those of a running game.
    pub open spec fn wf(&self) -> bool {
        wf_pipes(self@)
    }

    /// A manager without pipes.
    pub fn new() -> (r: PipeManager)
        ensures
            r@ == Seq::<Pipe>::empty(),
            r.wf(),
    {
        PipeManager { pipes: Vec::new() }
    }

    /// Takes all pipes away.
    pub fn reset(&mut self)
        ensures
            final(self)@ == Seq::<Pipe>::empty(),
            final(self).wf(),
    {
        self.pipes = Vec::new();
    }

    /// One tick of the pipes. On a tick whose number is a positive multiple
    /// of the spawn interval a pipe appears whose gap is placed by the next
    /// height of the source; then every pipe scrolls one step, and those that
    /// have left the field are retired.
    pub fn update(&mut self, time: i32, source: &mut HeightSource)
        requires
            forall|i: int| 0 <= i < old(self)@.len() ==> can_shift(#[trigger] old(self)@[i]),
        ensures
            !spawn_due(time as int) ==> final(self)@ == advance(old(self)@, None),
            spawn_due(time as int) ==> exists|upper_h: i64|
                valid_upper_height(upper_h as int) && upper_h % SCALE == 0 && final(self)@
                    == advance(old(self)@, Some(#[trigger] Pipe::spawned(upper_h))),
            old(self).wf() ==> final(self).wf(),
    {
        let spawned: Option<Pipe> = if time > 0 && time % SPAWN_INTERVAL == 0 {
            Some(Pipe::new(source))
        } else {
            None
        };
        self.advance(spawned);
    }

    /// One tick of the pipes with the pipe that appears on it, if one does.
    pub fn advance(&mut self, spawned: Option<Pipe>)
        requires
            forall|i: int| 0 <= i < old(self)@.len() ==> can_shift(#[trigger] old(self)@[i]),
            spawned matches Some(p) ==> can_shift(p),
        ensures
            final(self)@ == advance(old(self)@, spawned),
            old(self).wf() && fresh(spawned) ==> final(self).wf(),
    {
        if let Some(pipe) = spawned {
            self.add_pipe(pipe);
        }
        self.shift_pipes();
        self.remove_old();
        proof {
            if old(self).wf() && fresh(spawned) {
                lemma_advance_keeps_order(old(self)@, spawned);
            }
        }
    }

    fn add_pipe(&mut self, pipe: Pipe)
        ensures
            final(self)@ == old(self)@.push(pipe),
    {
        self.pipes.push(pipe);
    }

    fn shift_pipes(&mut self)
        requires
            forall|i: int| 0 <= i < old(self)@.len() ==> can_shift(#[trigger] old(self)@[i]),
        ensures
            final(self)@ == shift_all(old(self)@),
    {
        let n: usize = self.pipes.len();
        let mut i: usize = 0;
        while i < n
            invariant
                i <= n,
                self@.len() == n,
                old(self)@.len() == n,
                forall|k: int| 0 <= k < i ==> self@[k] == old(self)@[k].spec_shift(),
                forall|k: int| i <= k < n ==> self@[k] == old(self)@[k],
                forall|k: int| 0 <= k < n ==> can_shift(#[trigger] old(self)@[k]),
            decreases n - i,
        {
            self.pipes[i].shift();
            i = i + 1;
        }
    }

    fn remove_old(&mut self)
        ensures
            final(self)@ == retire(old(self)@),
    {
        let n: usize = self.pipes.len();
        let mut kept: Vec<Pipe> = Vec::new();
        let mut i: usize = 0;
        while i < n
            invariant
                i <= n,
                self@.len() == n,
                self@ == old(self)@,
                kept@ == retire(self@.take(i as int)),
            decreases n - i,
        {
            let pipe: Pipe = self.pipes[i];
            proof {
                reveal(Seq::filter);
                assert(self@.take(i + 1).drop_last() =~= self@.take(i as int));
            }
            if !pipe.removable() {
                kept.push(pipe);
            }
            i = i + 1;
        }
        assert(self@.take(n as int) =~= self@);
        self.pipes = kept;
    }

    /// The oldest pipe that the bird has not passed, if there is one, to be
    /// read and changed in place.
    pub fn get_first_unpassed(&mut self) -> (r: Option<&mut Pipe>)
        ensures
            match r {
                Some(pipe) => first_unpassed(old(self)@) matches Some(i) && *pipe == old(self)@[i]
                    && final(self)@ == old(self)@.update(i, *final(pipe)),
                None => first_unpassed(old(self)@) is None && final(self)@ == old(self)@,
            },
    {
        let n: usize = self.pipes.len();
        let mut i: usize = 0;
        while i < n
            invariant
                i <= n,
                self@.len() == n,
                self@ == old(self)@,
                first_unpassed(self@) == first_unpassed_from(self@, i as int),
            decreases n - i,
        {
            if !self.pipes[i].passed {
                return Some(&mut self.pipes[i]);
            }
            i = i + 1;
        }
        None
    }
}

/// The first pipe that the bird has not passed is what its name says: it has
/// not been passed, and all before it have been. Where there is none, all
/// have been passed.
pub proof fn lemma_first_unpassed(pipes: Seq<Pipe>)
    ensures
        first_unpassed(pipes) matches Some(i) ==> 0 <= i < pipes.len() && !pipes[i].passed
            && forall|k: int| 0 <= k < i ==> pipes[k].passed,
        first_unpassed(pipes) is None ==> forall|k: int| 0 <= k < pipes.len() ==> pipes[k].passed,
{
    lemma_first_unpassed_from(pipes, 0);
}

proof fn lemma_first_unpassed_from(pipes: Seq<Pipe>, start: int)
    requires
        0 <= start,
    ensures
        first_unpassed_from(pipes, start) matches Some(i) ==> start <= i < pipes.len()
            && !pipes[i].passed && forall|k: int| start <= k < i ==> pipes[k].passed,
        first_unpassed_from(pipes, start) is None ==> forall|k: int|
            start <= k < pipes.len() ==> pipes[k].passed,
    decreases pipes.len() - start,
{
    if start < pipes.len() && pipes[start].passed {
        lemma_first_unpassed_from(pipes, start + 1);
    }
}

/// Retiring takes pipes away and does nothing else: what is left are pipes
/// that stay, each of them one of those that were there, and they stand in
/// the order in which they stood.
pub proof fn lemma_retire(pipes: Seq<Pipe>)
    ensures
        retire(pipes).len() <= pipes.len(),
        forall|k: int|
            0 <= k < retire(pipes).len() ==> pipes.contains(#[trigger] retire(pipes)[k])
                && !retire(pipes)[k].spec_removable(),
        ordered(pipes) ==> ordered(retire(pipes)),
    decreases pipes.len(),
{
    reveal(Seq::filter);
    if pipes.len() > 0 {
        let front = pipes.drop_last();
        let last = pipes.last();
        lemma_retire(front);
        let kept = retire(front);
        assert forall|k: int| 0 <= k < kept.len() implies pipes.contains(#[trigger] kept[k]) by {
            let i: int = front.index_of(kept[k]);
            assert(pipes[i] == kept[k]);
        }
        if ordered(pipes) {
            assert(ordered(front));
            assert forall|k: int| 0 <= k < kept.len() implies (#[trigger] kept[k]).upper_pipe.x
                <= last.upper_pipe.x by {
                let i: int = front.index_of(kept[k]);
                assert(pipes[i] == kept[k]);
            }
        }
    }
}

/// Retiring pipes that stand in order takes pipes from the front only.
pub proof fn lemma_retire_takes_front(pipes: Seq<Pipe>)
    requires
        ordered(pipes),
        forall|i: int|
            0 <= i < pipes.len() ==> (#[trigger] pipes[i]).upper_pipe.x == pipes[i].lower_pipe.x,
    ensures
        exists|k: int| 0 <= k <= pipes.len() && retire(pipes) == #[trigger] pipes.skip(k),
    decreases pipes.len(),
{
    reveal(Seq::filter);
    if pipes.len() == 0 {
        assert(retire(pipes) =~= pipes.skip(0));
    } else {
        let front = pipes.drop_last();
        let last = pipes.last();
        lemma_retire_takes_front(front);
        let k: int = choose|k: int| 0 <= k <= front.len() && retire(front) == #[trigger] front.skip(k);
        if last.spec_removable() {
            lemma_retire(front);
            assert(retire(front).len() == 0) by {
                if retire(front).len() > 0 {
                    let i: int = front.index_of(retire(front)[0]);
                    assert(pipes[i].upper_pipe.x <= last.upper_pipe.x);
                }
            }
            assert(retire(pipes) =~= pipes.skip(pipes.len() as int));
        } else {
            assert(retire(pipes) =~= pipes.skip(k));
        }
    }
}

/// The pipes stay in order: if no pipe is to the right of a later one, and
/// none is beyond the line at which pipes appear, this still holds after a
/// tick, with or without a new pipe.
pub proof fn lemma_advance_keeps_order(pipes: Seq<Pipe>, spawned: Option<Pipe>)
    requires
        wf_pipes(pipes),
        fresh(spawned),
    ensures
        wf_pipes(advance(pipes, spawned)),
        forall|k: int|
            0 <= k < advance(pipes, spawned).len() ==> (#[trigger] advance(
                pipes,
                spawned,
            )[k]).upper_pipe.x <= SPAWN_X - PIPE_SHIFT,
{
    let all = with_spawned(pipes, spawned);
    let moved = shift_all(all);
    let kept = retire(moved);
    lemma_retire(moved);
    assert forall|k: int| 0 <= k < kept.len() implies (#[trigger] kept[k]).wf() && REMOVE_X
        < kept[k].upper_pipe.x <= SPAWN_X - PIPE_SHIFT by {
        let i: int = moved.index_of(kept[k]);
        assert(kept[k] == all[i].spec_shift());
    }
}

/// A pipe that is in play after the pipes have moved is one that was in play
/// before, or the new one, one step further to the left: whether it counts
/// as passed is carried along.
pub proof fn lemma_advance_carries(pipes: Seq<Pipe>, spawned: Option<Pipe>, k: int)
    requires
        0 <= k < advance(pipes, spawned).len(),
    ensures
        exists|i: int|
            0 <= i < with_spawned(pipes, spawned).len() && advance(pipes, spawned)[k]
                == (#[trigger] with_spawned(pipes, spawned)[i]).spec_shift(),
{
    let all = with_spawned(pipes, spawned);
    let moved = shift_all(all);
    lemma_retire(moved);
    let i: int = moved.index_of(retire(moved)[k]);
    assert(advance(pipes, spawned)[k] == all[i].spec_shift());
}

} // verus!
