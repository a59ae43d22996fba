use vstd::prelude::*;

use crate::direction::{dx, dy, Direction, Key};

verus! {

/// The one modelled failure: the movement update was asked to read the
/// head of an empty body. Surfaced to the caller instead of aborting.
#[derive(Clone, Copy, Debug, PartialEq, Eq, Structural)]
pub struct EmptyBodyError;

/// Whole game state: the score counter (never incremented by any rule),
/// the current heading, and the snake's body as two parallel, index-aligned
/// sequences of grid coordinates.
pub struct GameState {
    pub score: u32,
    pub dir: Direction,
    pub snake_pos_x: Vec<i64>,
    pub snake_pos_y: Vec<i64>,
}

/// The x coordinate appended by one tick in heading `d` from head `x0`.
pub open spec fn next_x(d: Direction, x0: i64) -> i64 {
    (x0 + dx(d)) as i64
}

/// The y coordinate appended by one tick in heading `d` from head `y0`.
pub open spec fn next_y(d: Direction, y0: i64) -> i64 {
    (y0 + dy(d)) as i64
}

/// One tick of the x sequence: the cell one unit from the coordinate at
/// index 0 is appended at the tail. Index 0 is re-read on every tick,
/// so the base of the offset never moves.
pub open spec fn step_xs(d: Direction, xs: Seq<i64>) -> Seq<i64> {
    xs.push(next_x(d, xs[0]))
}

/// One tick of the y sequence; see `step_xs`.
pub open spec fn step_ys(d: Direction, ys: Seq<i64>) -> Seq<i64> {
    ys.push(next_y(d, ys[0]))
}

/// The head coordinates can be offset one unit in heading `d` without
/// leaving the machine integer range.
pub open spec fn head_step_fits(d: Direction, x0: i64, y0: i64) -> bool {
    &&& i64::MIN <= x0 + dx(d) <= i64::MAX
    &&& i64::MIN <= y0 + dy(d) <= i64::MAX
}

impl GameState {
    /// Both coordinate sequences are index-aligned: equal length at all times.
    pub open spec fn wf(self) -> bool {
        self.snake_pos_x@.len() == self.snake_pos_y@.len()
    }

    /// Fresh game: score zero, heading `Right`, body a single cell at (2, 2).
    pub fn new() -> (s: GameState)
        ensures
            s.wf(),
            s.score == 0,
            s.dir == Direction::Right,
            s.snake_pos_x@ == seq![2i64],
            s.snake_pos_y@ == seq![2i64],
    {
        let s = GameState {
            score: 0,
            dir: Direction::Right,
            snake_pos_x: vec![2],
            snake_pos_y: vec![2],
        };
        proof {
            assert(s.snake_pos_x@ =~= seq![2i64]);
            assert(s.snake_pos_y@ =~= seq![2i64]);
        }
        s
    }

    /// One simulation tick: read the coordinate pair at index 0 (the original
    /// head, not the tail), offset it one grid unit in the current heading,
    /// and append the new pair to both sequences. On an empty body nothing
    /// changes and `EmptyBodyError` is returned.
    pub fn advance(&mut self) -> (r: Result<(), EmptyBodyError>)
        requires
            old(self).wf(),
            old(self).snake_pos_x@.len() > 0 ==> head_step_fits(
                old(self).dir,
                old(self).snake_pos_x@[0],
                old(self).snake_pos_y@[0],
            ),
        ensures
            final(self).wf(),
            final(self).dir == old(self).dir,
            final(self).score == old(self).score,
            old(self).snake_pos_x@.len() == 0 ==> r is Err && *final(self) == *old(self),
            old(self).snake_pos_x@.len() > 0 ==> {
                &&& r is Ok
                &&& final(self).snake_pos_x@ == step_xs(old(self).dir, old(self).snake_pos_x@)
                &&& final(self).snake_pos_y@ == step_ys(old(self).dir, old(self).snake_pos_y@)
            },
    {
        if self.snake_pos_x.len() == 0 || self.snake_pos_y.len() == 0 {
            return Err(EmptyBodyError);
        }
        let x0: i64 = self.snake_pos_x[0];
        let y0: i64 = self.snake_pos_y[0];
        match self.dir {
            Direction::Up => {
                self.snake_pos_x.push(x0);
                self.snake_pos_y.push(y0 - 1);
            }
            Direction::Right => {
                self.snake_pos_x.push(x0 + 1);
                self.snake_pos_y.push(y0);
            }
            Direction::Down => {
                self.snake_pos_x.push(x0);
                self.snake_pos_y.push(y0 + 1);
            }
            Direction::Left => {
                self.snake_pos_x.push(x0 - 1);
                self.snake_pos_y.push(y0);
            }
        }
        Ok(())
    }

    /// Catch-up update: run `ticks` simulation ticks in a row with the
    /// current heading. Because every tick re-reads index 0, and index 0
    /// never moves, every appended pair equals the original head offset
    /// once in the heading — the trail accretes copies of one cell.
    /// On an empty body (and at least one tick to run) nothing changes
    /// and `EmptyBodyError` is returned.
    pub fn update(&mut self, ticks: usize) -> (r: Result<(), EmptyBodyError>)
        requires
            old(self).wf(),
            old(self).snake_pos_x@.len() + ticks <= usize::MAX,
            old(self).snake_pos_x@.len() > 0 ==> head_step_fits(
                old(self).dir,
                old(self).snake_pos_x@[0],
                old(self).snake_pos_y@[0],
            ),
        ensures
            final(self).wf(),
            final(self).dir == old(self).dir,
            final(self).score == old(self).score,
            ticks == 0 ==> r is Ok && *final(self) == *old(self),
            ticks > 0 && old(self).snake_pos_x@.len() == 0 ==> r is Err && *final(self) == *old(
                self,
            ),
            ticks > 0 && old(self).snake_pos_x@.len() > 0 ==> {
                &&& r is Ok
                &&& final(self).snake_pos_x@ == old(self).snake_pos_x@ + Seq::new(
                    ticks as nat,
                    |i: int| next_x(old(self).dir, old(self).snake_pos_x@[0]),
                )
                &&& final(self).snake_pos_y@ == old(self).snake_pos_y@ + Seq::new(
                    ticks as nat,
                    |i: int| next_y(old(self).dir, old(self).snake_pos_y@[0]),
                )
            },
    {
        if ticks == 0 {
            return Ok(());
        }
        if self.snake_pos_x.len() == 0 {
            return Err(EmptyBodyError);
        }
        let ghost base = *old(self);
        let mut k: usize = 0;
        while k < ticks
            invariant
                0 <= k <= ticks,
                self.wf(),
                self.dir == base.dir,
                self.score == base.score,
                base.snake_pos_x@.len() > 0,
                base.snake_pos_x@.len() + ticks <= usize::MAX,
                head_step_fits(base.dir, base.snake_pos_x@[0], base.snake_pos_y@[0]),
                self.snake_pos_x@ == base.snake_pos_x@ + Seq::new(
                    k as nat,
                    |i: int| next_x(base.dir, base.snake_pos_x@[0]),
                ),
                self.snake_pos_y@ == base.snake_pos_y@ + Seq::new(
                    k as nat,
                    |i: int| next_y(base.dir, base.snake_pos_y@[0]),
                ),
            decreases ticks - k,
        {
            assert(self.snake_pos_x@[0] == base.snake_pos_x@[0]);
            assert(self.snake_pos_y@[0] == base.snake_pos_y@[0]);
            let res = self.advance();
            if res.is_err() {
                return Err(EmptyBodyError);
            }
            proof {
                assert(self.snake_pos_x@ =~= base.snake_pos_x@ + Seq::new(
                    (k + 1) as nat,
                    |i: int| next_x(base.dir, base.snake_pos_x@[0]),
                ));
                assert(self.snake_pos_y@ =~= base.snake_pos_y@ + Seq::new(
                    (k + 1) as nat,
                    |i: int| next_y(base.dir, base.snake_pos_y@[0]),
                ));
            }
            k = k + 1;
        }
        Ok(())
    }

    /// React to one key press: an arrow key sets the heading
    /// unconditionally (reversal included), escape asks the driver to
    /// quit, and any other key does nothing. Nothing but the heading
    /// ever changes, and the result says whether quitting was requested.
    pub fn key_down_event(&mut self, key: Key) -> (quit: bool)
        ensures
            final(self).snake_pos_x@ == old(self).snake_pos_x@,
            final(self).snake_pos_y@ == old(self).snake_pos_y@,
            final(self).score == old(self).score,
            quit == (key == Key::Escape),
            final(self).dir == match key {
                Key::Up => Direction::Up,
                Key::Left => Direction::Left,
                Key::Right => Direction::Right,
                Key::Down => Direction::Down,
                Key::Escape => old(self).dir,
                Key::Other => old(self).dir,
            },
    {
        match key {
            Key::Up => {
                self.dir = Direction::Up;
                false
            }
            Key::Left => {
                self.dir = Direction::Left;
                false
            }
            Key::Right => {
                self.dir = Direction::Right;
                false
            }
            Key::Down => {
                self.dir = Direction::Down;
                false
            }
            Key::Escape => true,
            Key::Other => false,
        }
    }
}

/// Law: one tick appends exactly one element, leaves every prior element
/// unchanged, and the appended element is derived from index 0 — the
/// original head — not from the tail.
pub proof fn lemma_step_appends_one(d: Direction, s: Seq<i64>)
    requires
        s.len() > 0,
    ensures
        step_xs(d, s).len() == s.len() + 1,
        forall|i: int| 0 <= i < s.len() ==> step_xs(d, s)[i] == s[i],
        step_xs(d, s)[s.len() as int] == next_x(d, s[0]),
        step_ys(d, s).len() == s.len() + 1,
        forall|i: int| 0 <= i < s.len() ==> step_ys(d, s)[i] == s[i],
        step_ys(d, s)[s.len() as int] == next_y(d, s[0]),
{
}

/// The x sequence after the ticks of `ds`, run in order: each tick applies
/// `step_xs` with that tick's heading.
pub open spec fn trail_xs(ds: Seq<Direction>, xs: Seq<i64>) -> Seq<i64>
    decreases ds.len(),
{
    if ds.len() == 0 {
        xs
    } else {
        trail_xs(ds.drop_first(), step_xs(ds[0], xs))
    }
}

/// The y sequence after the ticks of `ds`; see `trail_xs`.
pub open spec fn trail_ys(ds: Seq<Direction>, ys: Seq<i64>) -> Seq<i64>
    decreases ds.len(),
{
    if ds.len() == 0 {
        ys
    } else {
        trail_ys(ds.drop_first(), step_ys(ds[0], ys))
    }
}

/// Law: however the heading changes between ticks, prior entries are never
/// changed, reordered or removed, and the length grows by exactly one per
/// tick. Stated for either coordinate sequence.
pub proof fn lemma_trail_preserves_history(ds: Seq<Direction>, s: Seq<i64>)
    requires
        s.len() > 0,
    ensures
        trail_xs(ds, s).len() == s.len() + ds.len(),
        forall|i: int| 0 <= i < s.len() ==> trail_xs(ds, s)[i] == s[i],
        trail_ys(ds, s).len() == s.len() + ds.len(),
        forall|i: int| 0 <= i < s.len() ==> trail_ys(ds, s)[i] == s[i],
    decreases ds.len(),
{
    if ds.len() > 0 {
        lemma_trail_preserves_history(ds.drop_first(), step_xs(ds[0], s));
        lemma_trail_preserves_history(ds.drop_first(), step_ys(ds[0], s));
        assert(trail_xs(ds, s) == trail_xs(ds.drop_first(), step_xs(ds[0], s)));
        assert(trail_ys(ds, s) == trail_ys(ds.drop_first(), step_ys(ds[0], s)));
        assert forall|i: int| 0 <= i < s.len() implies trail_xs(ds, s)[i] == s[i] by {
            assert(step_xs(ds[0], s)[i] == s[i]);
        }
        assert forall|i: int| 0 <= i < s.len() implies trail_ys(ds, s)[i] == s[i] by {
            assert(step_ys(ds[0], s)[i] == s[i]);
        }
    }
}

/// Law: with a constant heading, every tick appends the same cell — the
/// head at index 0 offset once in that heading — so the trail accretes
/// copies of one coordinate instead of moving forward.
pub proof fn lemma_constant_heading_accretes(d: Direction, s: Seq<i64>, n: nat)
    requires
        s.len() > 0,
    ensures
        trail_xs(Seq::new(n, |i: int| d), s) == s + Seq::new(n, |i: int| next_x(d, s[0])),
        trail_ys(Seq::new(n, |i: int| d), s) == s + Seq::new(n, |i: int| next_y(d, s[0])),
    decreases n,
{
    let ds = Seq::new(n, |i: int| d);
    if n == 0 {
        assert(s + Seq::new(0nat, |i: int| next_x(d, s[0])) =~= s);
        assert(s + Seq::new(0nat, |i: int| next_y(d, s[0])) =~= s);
    } else {
        let sx = step_xs(d, s);
        let sy = step_ys(d, s);
        assert(ds.drop_first() =~= Seq::new((n - 1) as nat, |i: int| d));
        lemma_constant_heading_accretes(d, sx, (n - 1) as nat);
        lemma_constant_heading_accretes(d, sy, (n - 1) as nat);
        assert(sx[0] == s[0]);
        assert(sy[0] == s[0]);
        assert(trail_xs(ds, s) == trail_xs(ds.drop_first(), step_xs(ds[0], s)));
        assert(trail_ys(ds, s) == trail_ys(ds.drop_first(), step_ys(ds[0], s)));
        assert(sx + Seq::new((n - 1) as nat, |i: int| next_x(d, sx[0])) =~= s + Seq::new(
            n,
            |i: int| next_x(d, s[0]),
        ));
        assert(sy + Seq::new((n - 1) as nat, |i: int| next_y(d, sy[0])) =~= s + Seq::new(
            n,
            |i: int| next_y(d, s[0]),
        ));
    }
}

} // verus!
