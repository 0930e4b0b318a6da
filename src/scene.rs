use vstd::prelude::*;
use crate::point::Point;
use crate::rand::{RandomGenerator, range_value, xorshift};
use crate::render::{FeedbackRender, IndicesRender, TransformInfo, MAX_COMPONENTS};
use crate::shape::{Shape, apply_readback, polygon_contains};

verus! {

/// Time the interactive shapes take to drop into place, in microseconds.
pub const DROP_TIME_US: u64 = 1_000_000;

/// `Initial`: the shapes are still settling; `Done`: they are in place and a
/// hit can score.
#[derive(Debug, Clone, Copy, PartialEq, Eq, Structural)]
pub enum State {
    Initial,
    Done,
}

/// State and drop time after `dt` more microseconds: reaching `DROP_TIME_US`
/// settles the scene in `Done` and stops the clock there.
pub open spec fn advance(state: State, time: int, dt: int) -> (State, int) {
    if time + dt >= DROP_TIME_US {
        (State::Done, DROP_TIME_US as int)
    } else {
        (state, time + dt)
    }
}

/// State and drop time after a run of frames lasting `dts[0], dts[1], ...`.
pub open spec fn advance_all(state: State, time: int, dts: Seq<u64>) -> (State, int)
    decreases dts.len(),
{
    if dts.len() == 0 {
        (state, time)
    } else {
        let (s, t) = advance(state, time, dts[0] as int);
        advance_all(s, t, dts.drop_first())
    }
}

/// Sum of a run of frame durations.
pub open spec fn total(dts: Seq<u64>) -> int
    decreases dts.len(),
{
    if dts.len() == 0 {
        0
    } else {
        dts[0] + total(dts.drop_first())
    }
}

/// Whatever state the scene starts in, frames that together last long enough
/// to reach the drop time leave it in `Done`, with the drop time at its bound.
pub proof fn lemma_ticks_reach_done(state: State, time: int, dts: Seq<u64>)
    requires
        0 <= time <= DROP_TIME_US,
        time == DROP_TIME_US ==> state == State::Done,
        time + total(dts) >= DROP_TIME_US,
    ensures
        advance_all(state, time, dts) == (State::Done, DROP_TIME_US as int),
    decreases dts.len(),
{
    if dts.len() > 0 {
        let (s, t) = advance(state, time, dts[0] as int);
        let rest = dts.drop_first();
        if time + dts[0] >= DROP_TIME_US {
            lemma_settled_stays_done(rest);
        } else {
            lemma_ticks_reach_done(s, t, rest);
        }
    }
}

/// Once settled, further frames keep the scene settled.
proof fn lemma_settled_stays_done(dts: Seq<u64>)
    ensures
        advance_all(State::Done, DROP_TIME_US as int, dts) == (State::Done, DROP_TIME_US as int),
    decreases dts.len(),
{
    if dts.len() > 0 {
        lemma_settled_stays_done(dts.drop_first());
    }
}

/// `s` holds each of `0..n` exactly once.
pub open spec fn is_permutation(s: Seq<usize>, n: nat) -> bool {
    &&& s.len() == n
    &&& forall|i: int| 0 <= i < n ==> #[trigger] s[i] < n
    &&& forall|i: int, j: int| 0 <= i < j < n ==> #[trigger] s[i] != #[trigger] s[j]
}

/// `0, 1, ..., n - 1`.
pub open spec fn identity_slots(n: nat) -> Seq<usize> {
    Seq::new(n, |i: int| i as usize)
}

/// The first `k` steps of the partial Fisher-Yates shuffle of `s` driven by a
/// generator in state `st`: step `i` draws `j` from `[i, s.len())` and swaps
/// positions `i` and `j`. Gives the sequence and the generator state after.
pub open spec fn shuffle(s: Seq<usize>, st: u64, k: nat) -> (Seq<usize>, u64)
    decreases k,
{
    if k == 0 {
        (s, st)
    } else {
        let (p, t) = shuffle(s, st, (k - 1) as nat);
        let i = k - 1;
        let j = range_value(t, i as u64, s.len() as u64);
        (p.update(i, p[j]).update(j, p[i]), xorshift(t))
    }
}

/// Shuffling keeps a permutation of the slots a permutation, whatever the
/// generator state and however many of its first positions are shuffled.
pub proof fn lemma_shuffle_keeps_permutation(s: Seq<usize>, st: u64, k: nat)
    requires
        is_permutation(s, s.len()),
        k <= s.len(),
        s.len() <= u64::MAX,
    ensures
        is_permutation(shuffle(s, st, k).0, s.len()),
    decreases k,
{
    if k > 0 {
        lemma_shuffle_keeps_permutation(s, st, (k - 1) as nat);
        let (p, t) = shuffle(s, st, (k - 1) as nat);
        let i = k - 1;
        let j = range_value(t, i as u64, s.len() as u64);
        let q = p.update(i, p[j]).update(j, p[i]);
        assert(i <= j < s.len());
        assert(q == shuffle(s, st, k).0);
        assert forall|a: int, b: int| 0 <= a < b < s.len() implies #[trigger] q[a] != #[trigger] q[b] by {
            let pa = if a == j { i } else if a == i { j } else { a };
            let pb = if b == j { i } else if b == i { j } else { b };
            assert(q[a] == p[pa]);
            assert(q[b] == p[pb]);
            assert(pa != pb);
            if pa < pb {
                assert(p[pa] != p[pb]);
            } else {
                assert(p[pb] != p[pa]);
            }
        }
        assert forall|a: int| 0 <= a < s.len() implies #[trigger] q[a] < s.len() by {
            let pa = if a == j { i } else if a == i { j } else { a };
            assert(q[a] == p[pa]);
        }
    }
}

/// Centre of cell `i` when the span from `lo` to `hi` is cut into `count`
/// equal cells: `lo + (2 * i + 1) * (hi - lo) / (2 * count)`, taken to the
/// nearest fixed-point value (halves rounded up).
pub open spec fn cell_centre(lo: i32, hi: i32, count: u32, i: int) -> int {
    lo + ((2 * i + 1) * (hi - lo) + count) / (2 * count as int)
}

/// Placement of cell `k` of a grid with `count_y` rows per column, cells
/// numbered column by column.
pub open spec fn grid_transform(u: i32, d: i32, l: i32, r: i32, count_x: u32, count_y: u32, k: int) -> TransformInfo {
    TransformInfo(
        cell_centre(l, r, count_x, k / (count_y as int)) as i32,
        cell_centre(d, u, count_y, k % (count_y as int)) as i32,
    )
}

/// Every cell centre lies between `lo` and `hi`, whichever of them is larger.
proof fn lemma_cell_centre_bounds(lo: i32, hi: i32, count: u32, i: int)
    requires
        count >= 1,
        0 <= i < count,
    ensures
        lo <= hi ==> lo <= cell_centre(lo, hi, count, i) <= hi,
        hi < lo ==> hi <= cell_centre(lo, hi, count, i) <= lo,
{
    let w = hi - lo;
    let k = 2 * i + 1;
    let c = count as int;
    let d = 2 * c;
    let n = k * w + c;
    let q = n / d;
    let rm = n % d;
    vstd::arithmetic::div_mod::lemma_fundamental_div_mod(n, d);
    vstd::arithmetic::div_mod::lemma_mod_bound(n, d);
    assert(n == d * q + rm);
    if w >= 0 {
        assert(0 <= q <= w) by (nonlinear_arith)
            requires
                n == d * q + rm,
                0 <= rm < d,
                n == k * w + c,
                1 <= k <= d - 1,
                d == 2 * c,
                c >= 1,
                w >= 0,
        ;
    } else {
        assert(w <= q <= 0) by (nonlinear_arith)
            requires
                n == d * q + rm,
                0 <= rm < d,
                n == k * w + c,
                1 <= k <= d - 1,
                d == 2 * c,
                c >= 1,
                w < 0,
        ;
    }
}

/// `n / d` rounded down, for a positive `d`.
fn floor_div(n: i128, d: i128) -> (q: i128)
    requires
        d > 0,
        -0x1_0000_0000_0000_0000_0000 <= n <= 0x1_0000_0000_0000_0000_0000,
        d <= 0x1_0000_0000_0000_0000_0000,
    ensures
        q == n / d,
{
    if n >= 0 {
        n / d
    } else {
        let m: i128 = -n;
        let p: i128 = (m + d - 1) / d;
        proof {
            let x: int = m + d - 1;
            let dd: int = d as int;
            vstd::arithmetic::div_mod::lemma_fundamental_div_mod(x, dd);
            vstd::arithmetic::div_mod::lemma_mod_pos_bound(x, dd);
            let s = x % dd;
            assert(x == dd * p + s);
            assert(n == (-p) * dd + (dd - 1 - s)) by (nonlinear_arith)
                requires
                    x == dd * p + s,
                    x == -n + dd - 1,
            ;
            vstd::arithmetic::div_mod::lemma_fundamental_div_mod_converse(n as int, d as int, -p, d - 1 - s);
        }
        -p
    }
}

/// Placements at the centres of a `count_x` by `count_y` grid over the
/// rectangle with top `u`, bottom `d`, left `l` and right `r`, column by
/// column (fixed-point coordinates).
pub fn get_transforms(u: i32, d: i32, l: i32, r: i32, count_x: u32, count_y: u32) -> (res: Vec<TransformInfo>)
    requires
        count_x * count_y <= usize::MAX,
    ensures
        res@ == Seq::new(
            (count_x * count_y) as nat,
            |k: int| grid_transform(u, d, l, r, count_x, count_y, k),
        ),
{
    let mut result: Vec<TransformInfo> = Vec::new();
    if count_x == 0 || count_y == 0 {
        assert(count_x * count_y == 0) by (nonlinear_arith)
            requires
                count_x == 0 || count_y == 0,
        ;
        assert(result@ =~= Seq::new(
            (count_x * count_y) as nat,
            |k: int| grid_transform(u, d, l, r, count_x, count_y, k),
        ));
        return result;
    }
    let wx: i128 = (r as i128) - (l as i128);
    let wy: i128 = (u as i128) - (d as i128);
    let mut i: u32 = 0;
    while i < count_x
        invariant
            0 <= i <= count_x,
            count_x >= 1,
            count_y >= 1,
            count_x * count_y <= usize::MAX,
            wx == r - l,
            wy == u - d,
            result@ == Seq::new((i * count_y) as nat, |k: int| grid_transform(u, d, l, r, count_x, count_y, k)),
        decreases count_x - i,
    {
        let mut j: u32 = 0;
        while j < count_y
            invariant
                0 <= i < count_x,
                0 <= j <= count_y,
                count_x >= 1,
                count_y >= 1,
                count_x * count_y <= usize::MAX,
                wx == r - l,
                wy == u - d,
                result@ == Seq::new(
                    (i * count_y + j) as nat,
                    |k: int| grid_transform(u, d, l, r, count_x, count_y, k),
                ),
            decreases count_y - j,
        {
            let ki: i128 = 2 * (i as i128) + 1;
            let kj: i128 = 2 * (j as i128) + 1;
            proof {
                let b: int = 0x1_0000_0000;
                assert(-b * (2 * b) <= ki * wx <= b * (2 * b)) by (nonlinear_arith)
                    requires
                        1 <= ki <= 2 * b,
                        -b <= wx <= b,
                ;
                assert(-b * (2 * b) <= kj * wy <= b * (2 * b)) by (nonlinear_arith)
                    requires
                        1 <= kj <= 2 * b,
                        -b <= wy <= b,
                ;
                lemma_cell_centre_bounds(l, r, count_x, i as int);
                lemma_cell_centre_bounds(d, u, count_y, j as int);
            }
            let x: i128 = (l as i128) + floor_div(ki * wx + (count_x as i128), 2 * (count_x as i128));
            let y: i128 = (d as i128) + floor_div(kj * wy + (count_y as i128), 2 * (count_y as i128));
            proof {
                let k = i * count_y + j;
                vstd::arithmetic::div_mod::lemma_fundamental_div_mod_converse(k, count_y as int, i as int, j as int);
                assert((i * count_y + j) + 1 <= count_x * count_y) by (nonlinear_arith)
                    requires
                        0 <= i < count_x,
                        0 <= j < count_y,
                ;
            }
            result.push(TransformInfo(x as i32, y as i32));
            assert(result@ =~= Seq::new(
                (i * count_y + j + 1) as nat,
                |k: int| grid_transform(u, d, l, r, count_x, count_y, k),
            ));
            j += 1;
        }
        assert((i + 1) * count_y == i * count_y + count_y) by (nonlinear_arith);
        i += 1;
    }
    result
}

/// Shapes, their renderers, the placement slots and the state machine of one
/// round.
///
/// Interactive (dynamic) shape `i` is placed at slot `transform_indices[i]`;
/// `transform_indices` is always a permutation of the slots.
#[derive(Debug)]
pub struct Scene {
    feedback_render: FeedbackRender,
    indices_render: IndicesRender,
    dynamic_shapes: Vec<Shape>,
    static_shapes: Vec<Shape>,
    transforms: Vec<TransformInfo>,
    transform_indices: Vec<usize>,
    state: State,
    time: u64,
    rng: RandomGenerator,
}

impl Scene {
    pub closed spec fn dynamic_view(&self) -> Seq<Shape> {
        self.dynamic_shapes@
    }

    pub closed spec fn static_view(&self) -> Seq<Shape> {
        self.static_shapes@
    }

    pub closed spec fn transforms_view(&self) -> Seq<TransformInfo> {
        self.transforms@
    }

    pub closed spec fn slots_view(&self) -> Seq<usize> {
        self.transform_indices@
    }

    pub closed spec fn state_view(&self) -> State {
        self.state
    }

    pub closed spec fn time_view(&self) -> u64 {
        self.time
    }

    pub closed spec fn rng_state(&self) -> u64 {
        self.rng.state()
    }

    pub closed spec fn feedback_view(&self) -> FeedbackRender {
        self.feedback_render
    }

    pub closed spec fn indices_view(&self) -> IndicesRender {
        self.indices_render
    }

    /// The slots form a permutation, there is a slot for every interactive
    /// shape, every shape is well formed, each renderer holds exactly the
    /// scene's shapes, and the drop time is within its bound and reaches it
    /// only once the scene has settled.
    pub closed spec fn wf(&self) -> bool {
        &&& is_permutation(self.transform_indices@, self.transforms@.len())
        &&& self.dynamic_shapes@.len() <= self.transforms@.len()
        &&& self.feedback_render.wf()
        &&& self.indices_render.wf()
        &&& self.feedback_render.descriptors_view().len() == self.dynamic_shapes@.len()
        &&& self.indices_render.descriptors_view().len() == self.static_shapes@.len()
        &&& forall|i: int| 0 <= i < self.dynamic_shapes@.len() ==> (#[trigger] self.dynamic_shapes@[i]).wf()
        &&& forall|i: int|
            0 <= i < self.dynamic_shapes@.len() ==> (#[trigger] self.feedback_render.descriptors_view()[i]).count
                == self.dynamic_shapes@[i].indices@.len()
        &&& forall|i: int| 0 <= i < self.static_shapes@.len() ==> (#[trigger] self.static_shapes@[i]).wf()
        &&& self.time <= DROP_TIME_US
        &&& self.time == DROP_TIME_US ==> self.state == State::Done
    }

    /// What the invariant says of the slots and the drop time, for callers
    /// reasoning about later calls (see `lemma_ticks_reach_done`).
    pub proof fn lemma_invariant_facts(&self)
        requires
            self.wf(),
        ensures
            is_permutation(self.slots_view(), self.transforms_view().len()),
            self.dynamic_view().len() <= self.transforms_view().len(),
            self.time_view() <= DROP_TIME_US,
            self.time_view() == DROP_TIME_US ==> self.state_view() == State::Done,
    {
    }

    /// A scene with the given placement slots and no shapes, in `Initial`.
    pub fn new(transforms: Vec<TransformInfo>, rng: RandomGenerator) -> (r: Scene)
        ensures
            r.wf(),
            r.transforms_view() == transforms@,
            r.slots_view() == identity_slots(transforms@.len()),
            r.dynamic_view().len() == 0,
            r.static_view().len() == 0,
            r.state_view() == State::Initial,
            r.time_view() == 0,
            r.rng_state() == rng.state(),
            r.feedback_view().vertices_view().len() == 0,
            r.indices_view().vertices_view().len() == 0,
            r.indices_view().indices_view().len() == 0,
    {
        let n = transforms.len();
        let mut transform_indices: Vec<usize> = Vec::new();
        let mut i: usize = 0;
        while i < n
            invariant
                0 <= i <= n,
                transform_indices@ == identity_slots(i as nat),
            decreases n - i,
        {
            transform_indices.push(i);
            assert(transform_indices@ =~= identity_slots((i + 1) as nat));
            i += 1;
        }
        Scene {
            feedback_render: FeedbackRender::new(),
            indices_render: IndicesRender::new(),
            dynamic_shapes: Vec::new(),
            static_shapes: Vec::new(),
            transforms,
            transform_indices,
            state: State::Initial,
            time: 0,
            rng,
        }
    }

    /// Reassigns slots: for each interactive shape `i` in turn, draws `j` from
    /// `[i, slot count)` and swaps the slots at `i` and `j`.
    pub fn permutate_transforms(&mut self)
        requires
            old(self).wf(),
        ensures
            final(self).wf(),
            (final(self).slots_view(), final(self).rng_state()) == shuffle(
                old(self).slots_view(),
                old(self).rng_state(),
                old(self).dynamic_view().len(),
            ),
            is_permutation(final(self).slots_view(), final(self).transforms_view().len()),
            final(self).dynamic_view() == old(self).dynamic_view(),
            final(self).static_view() == old(self).static_view(),
            final(self).transforms_view() == old(self).transforms_view(),
            final(self).state_view() == old(self).state_view(),
            final(self).time_view() == old(self).time_view(),
            final(self).feedback_view() == old(self).feedback_view(),
            final(self).indices_view() == old(self).indices_view(),
    {
        let n = self.dynamic_shapes.len();
        let m = self.transform_indices.len();
        let mut i: usize = 0;
        while i < n
            invariant
                0 <= i <= n,
                n == self.dynamic_shapes@.len(),
                n <= m,
                m == self.transform_indices@.len(),
                m == old(self).transform_indices@.len(),
                (self.transform_indices@, self.rng.state()) == shuffle(
                    old(self).transform_indices@,
                    old(self).rng.state(),
                    i as nat,
                ),
                self.dynamic_shapes == old(self).dynamic_shapes,
                self.static_shapes == old(self).static_shapes,
                self.transforms == old(self).transforms,
                self.state == old(self).state,
                self.time == old(self).time,
                self.feedback_render == old(self).feedback_render,
                self.indices_render == old(self).indices_render,
            decreases n - i,
        {
            let j = self.rng.rand_in_range(i as u64, m as u64) as usize;
            let a = self.transform_indices[i];
            let b = self.transform_indices[j];
            self.transform_indices.set(i, b);
            self.transform_indices.set(j, a);
            i += 1;
        }
        proof {
            lemma_shuffle_keeps_permutation(old(self).transform_indices@, old(self).rng.state(), n as nat);
        }
    }

    /// Adds an interactive shape, and its triangles to the feedback renderer.
    pub fn add_dynamic_shape(&mut self, shape: &Shape)
        requires
            old(self).wf(),
            shape.wf(),
            old(self).dynamic_view().len() < old(self).transforms_view().len(),
            old(self).feedback_view().vertices_view().len() + 2 * shape.indices@.len() <= MAX_COMPONENTS,
        ensures
            final(self).wf(),
            final(self).dynamic_view().len() == old(self).dynamic_view().len() + 1,
            final(self).dynamic_view().subrange(0, old(self).dynamic_view().len() as int)
                == old(self).dynamic_view(),
            final(self).dynamic_view().last().vertices@ == shape.vertices@,
            final(self).dynamic_view().last().indices@ == shape.indices@,
            final(self).dynamic_view().last().texture_id == shape.texture_id,
            final(self).feedback_view().vertices_view().len() == old(self).feedback_view().vertices_view().len()
                + 2 * shape.indices@.len(),
            final(self).indices_view() == old(self).indices_view(),
            final(self).static_view() == old(self).static_view(),
            final(self).slots_view() == old(self).slots_view(),
            final(self).transforms_view() == old(self).transforms_view(),
            final(self).state_view() == old(self).state_view(),
            final(self).time_view() == old(self).time_view(),
            final(self).rng_state() == old(self).rng_state(),
    {
        self.feedback_render.add(shape);
        self.dynamic_shapes.push(shape.duplicate());
        proof {
            let n = self.dynamic_shapes@.len();
            assert(self.dynamic_shapes@.subrange(0, n - 1) =~= old(self).dynamic_shapes@);
            assert forall|i: int| 0 <= i < n implies (#[trigger] self.feedback_render.descriptors_view()[i]).count
                == self.dynamic_shapes@[i].indices@.len() by {
                if i < n - 1 {
                    assert(old(self).feedback_render.descriptors_view()[i].count
                        == old(self).dynamic_shapes@[i].indices@.len());
                }
            }
            assert forall|i: int| 0 <= i < n implies (#[trigger] self.dynamic_shapes@[i]).wf() by {
                if i < n - 1 {
                    assert(old(self).dynamic_shapes@[i].wf());
                }
            }
        }
    }

    /// Adds a fixed (background) shape to the indexed renderer.
    pub fn add_static_shape(&mut self, shape: &Shape)
        requires
            old(self).wf(),
            shape.wf(),
            old(self).indices_view().vertices_view().len() + 2 * shape.vertices@.len() <= MAX_COMPONENTS,
            old(self).indices_view().indices_view().len() + shape.indices@.len() <= MAX_COMPONENTS,
        ensures
            final(self).wf(),
            final(self).static_view().len() == old(self).static_view().len() + 1,
            final(self).static_view().subrange(0, old(self).static_view().len() as int)
                == old(self).static_view(),
            final(self).static_view().last().vertices@ == shape.vertices@,
            final(self).static_view().last().indices@ == shape.indices@,
            final(self).static_view().last().texture_id == shape.texture_id,
            final(self).indices_view().vertices_view().len() == old(self).indices_view().vertices_view().len()
                + 2 * shape.vertices@.len(),
            final(self).indices_view().indices_view().len() == old(self).indices_view().indices_view().len()
                + shape.indices@.len(),
            final(self).feedback_view() == old(self).feedback_view(),
            final(self).dynamic_view() == old(self).dynamic_view(),
            final(self).slots_view() == old(self).slots_view(),
            final(self).transforms_view() == old(self).transforms_view(),
            final(self).state_view() == old(self).state_view(),
            final(self).time_view() == old(self).time_view(),
            final(self).rng_state() == old(self).rng_state(),
    {
        self.indices_render.add(shape);
        self.static_shapes.push(shape.duplicate());
        proof {
            let n = self.static_shapes@.len();
            assert(self.static_shapes@.subrange(0, n - 1) =~= old(self).static_shapes@);
            assert forall|i: int| 0 <= i < n implies (#[trigger] self.static_shapes@[i]).wf() by {
                if i < n - 1 {
                    assert(old(self).static_shapes@[i].wf());
                }
            }
        }
    }

    /// Whether `point` lies inside interactive shape `idx` as last drawn.
    pub fn is_dynamic_hit(&self, idx: usize, point: Point) -> (r: bool)
        requires
            idx < self.dynamic_view().len(),
        ensures
            r == polygon_contains(self.dynamic_view()[idx as int].vertices@, point),
    {
        self.dynamic_shapes[idx].contains(point)
    }

    pub fn state(&self) -> (r: State)
        ensures
            r == self.state_view(),
    {
        self.state
    }

    /// Back to `Initial` with the drop time at zero.
    pub fn reset(&mut self)
        requires
            old(self).wf(),
        ensures
            final(self).wf(),
            final(self).state_view() == State::Initial,
            final(self).time_view() == 0,
            final(self).dynamic_view() == old(self).dynamic_view(),
            final(self).static_view() == old(self).static_view(),
            final(self).slots_view() == old(self).slots_view(),
            final(self).transforms_view() == old(self).transforms_view(),
            final(self).rng_state() == old(self).rng_state(),
            final(self).feedback_view() == old(self).feedback_view(),
            final(self).indices_view() == old(self).indices_view(),
    {
        self.time = 0;
        self.state = State::Initial;
    }

    /// Lets `dt` microseconds of the drop pass: the drop time stops at
    /// `DROP_TIME_US`, and reaching it puts the scene in `Done`.
    pub fn advance_time(&mut self, dt: u64)
        requires
            old(self).wf(),
        ensures
            final(self).wf(),
            (final(self).state_view(), final(self).time_view() as int) == advance(
                old(self).state_view(),
                old(self).time_view() as int,
                dt as int,
            ),
            final(self).time_view() == if old(self).time_view() + dt >= DROP_TIME_US {
                DROP_TIME_US as int
            } else {
                old(self).time_view() + dt
            },
            final(self).state_view() == if old(self).time_view() + dt >= DROP_TIME_US {
                State::Done
            } else {
                old(self).state_view()
            },
            final(self).dynamic_view() == old(self).dynamic_view(),
            final(self).static_view() == old(self).static_view(),
            final(self).slots_view() == old(self).slots_view(),
            final(self).transforms_view() == old(self).transforms_view(),
            final(self).rng_state() == old(self).rng_state(),
            final(self).feedback_view() == old(self).feedback_view(),
            final(self).indices_view() == old(self).indices_view(),
    {
        if dt >= DROP_TIME_US - self.time {
            self.time = DROP_TIME_US;
            self.state = State::Done;
        } else {
            self.time = self.time + dt;
        }
    }

    /// Stores the GPU's transformed output for interactive shape `idx`, drawn
    /// just now, in the feedback renderer, and writes it into the shape's
    /// vertices (pair `k` over the vertex that index `k` names).
    pub fn apply_readback(&mut self, idx: usize, data: &[i32])
        requires
            old(self).wf(),
            idx < old(self).dynamic_view().len(),
            data@.len() == 2 * old(self).dynamic_view()[idx as int].indices@.len(),
        ensures
            final(self).wf(),
            final(self).dynamic_view().len() == old(self).dynamic_view().len(),
            final(self).dynamic_view()[idx as int].vertices@ == apply_readback(
                old(self).dynamic_view()[idx as int].vertices@,
                old(self).dynamic_view()[idx as int].indices@,
                data@,
                old(self).dynamic_view()[idx as int].indices@.len(),
            ),
            final(self).dynamic_view()[idx as int].indices@ == old(self).dynamic_view()[idx as int].indices@,
            final(self).feedback_view().descriptors_view() == old(self).feedback_view().descriptors_view(),
            final(self).feedback_view().vertices_view() == old(self).feedback_view().vertices_view().subrange(
                0,
                old(self).feedback_view().run_start(idx as int),
            ) + data@ + old(self).feedback_view().vertices_view().subrange(
                old(self).feedback_view().run_end(idx as int),
                old(self).feedback_view().vertices_view().len() as int,
            ),
            final(self).indices_view() == old(self).indices_view(),
            final(self).dynamic_view()[idx as int].texture_id == old(self).dynamic_view()[idx as int].texture_id,
            forall|i: int|
                0 <= i < old(self).dynamic_view().len() && i != idx ==> #[trigger] final(self).dynamic_view()[i]
                    == old(self).dynamic_view()[i],
            final(self).static_view() == old(self).static_view(),
            final(self).slots_view() == old(self).slots_view(),
            final(self).transforms_view() == old(self).transforms_view(),
            final(self).state_view() == old(self).state_view(),
            final(self).time_view() == old(self).time_view(),
            final(self).rng_state() == old(self).rng_state(),
    {
        proof {
            assert(self.feedback_render.descriptors_view()[idx as int].count
                == self.dynamic_shapes@[idx as int].indices@.len());
            assert(self.dynamic_shapes@[idx as int].wf());
        }
        self.feedback_render.store_readback(idx, data);
        let mut shape = self.dynamic_shapes[idx].duplicate();
        let run = self.feedback_render.read_vertices(idx);
        proof {
            let f = self.feedback_render;
            let start = f.run_start(idx as int);
            let end = f.run_end(idx as int);
            assert(end - start == data@.len());
            assert(run@ =~= data@);
        }
        shape.update_vertices(run);
        self.dynamic_shapes.set(idx, shape);
        proof {
            let n = self.dynamic_shapes@.len();
            assert forall|i: int| 0 <= i < n implies (#[trigger] self.feedback_render.descriptors_view()[i]).count
                == self.dynamic_shapes@[i].indices@.len() by {
                assert(old(self).feedback_render.descriptors_view()[i].count
                    == old(self).dynamic_shapes@[i].indices@.len());
            }
            assert forall|i: int| 0 <= i < n implies (#[trigger] self.dynamic_shapes@[i]).wf() by {
                assert(old(self).dynamic_shapes@[i].wf());
            }
        }
    }

    /// Number of interactive shapes.
    pub fn dynamic_count(&self) -> (r: usize)
        ensures
            r == self.dynamic_view().len(),
    {
        self.dynamic_shapes.len()
    }

    /// Number of fixed shapes.
    pub fn static_count(&self) -> (r: usize)
        ensures
            r == self.static_view().len(),
    {
        self.static_shapes.len()
    }

    /// Placement of interactive shape `idx`: the transform of its slot.
    pub fn dynamic_transform(&self, idx: usize) -> (r: TransformInfo)
        requires
            self.wf(),
            idx < self.dynamic_view().len(),
        ensures
            r == self.transforms_view()[self.slots_view()[idx as int] as int],
    {
        let slot = self.transform_indices[idx];
        self.transforms[slot]
    }

    /// Texture of interactive shape `idx`.
    pub fn dynamic_texture(&self, idx: usize) -> (r: usize)
        requires
            idx < self.dynamic_view().len(),
        ensures
            r == self.dynamic_view()[idx as int].texture_id,
    {
        self.dynamic_shapes[idx].texture_id
    }

    /// Texture of fixed shape `idx`.
    pub fn static_texture(&self, idx: usize) -> (r: usize)
        requires
            idx < self.static_view().len(),
        ensures
            r == self.static_view()[idx as int].texture_id,
    {
        self.static_shapes[idx].texture_id
    }

    /// Drop time so far, in microseconds.
    pub fn time(&self) -> (r: u64)
        ensures
            r == self.time_view(),
    {
        self.time
    }

    /// Slot of each interactive shape, then of the unused slots.
    pub fn transform_indices(&self) -> (r: &[usize])
        ensures
            r@ == self.slots_view(),
    {
        self.transform_indices.as_slice()
    }

    /// Vertices of interactive shape `idx` as last drawn.
    pub fn dynamic_vertices(&self, idx: usize) -> (r: &[Point])
        requires
            idx < self.dynamic_view().len(),
        ensures
            r@ == self.dynamic_view()[idx as int].vertices@,
    {
        self.dynamic_shapes[idx].vertices.as_slice()
    }

    /// The feedback renderer's buffers and ranges.
    pub fn feedback_render(&self) -> (r: &FeedbackRender)
        requires
            self.wf(),
        ensures
            *r == self.feedback_view(),
            r.wf(),
            r.descriptors_view().len() == self.dynamic_view().len(),
    {
        &self.feedback_render
    }

    /// The indexed renderer's buffers and ranges.
    pub fn indices_render(&self) -> (r: &IndicesRender)
        requires
            self.wf(),
        ensures
            *r == self.indices_view(),
            r.wf(),
            r.descriptors_view().len() == self.static_view().len(),
    {
        &self.indices_render
    }
}

} // verus!
