use vstd::prelude::*;
use crate::point::{Point, ONE};

verus! {

/// Whether the horizontal ray from `p` towards +x crosses the edge `a -> b`.
///
/// The edge must straddle the ray's height (`p.y < a.y` differs from
/// `p.y < b.y`, which also rules out horizontal edges), and the edge's
/// x at height `p.y`, `a.x + (p.y - a.y) * (b.x - a.x) / (b.y - a.y)`, must
/// lie strictly right of `p.x`. The comparison is stated multiplied through by
/// `b.y - a.y`, whose sign decides its direction.
pub open spec fn edge_crosses(p: Point, a: Point, b: Point) -> bool {
    let d = b.y - a.y;
    let lhs = (p.x - a.x) * d;
    let rhs = (p.y - a.y) * (b.x - a.x);
    &&& (p.y < a.y) != (p.y < b.y)
    &&& if d > 0 { lhs < rhs } else { lhs > rhs }
}

/// Number of edges `(v[i], v[(i + 1) % len])` with `i < n` that the ray from
/// `p` crosses.
pub open spec fn crossings(v: Seq<Point>, p: Point, n: nat) -> nat
    decreases n,
{
    if n == 0 {
        0
    } else {
        let i = n - 1;
        let j = (i + 1) % (v.len() as int);
        crossings(v, p, i as nat) + if edge_crosses(p, v[i], v[j]) { 1nat } else { 0nat }
    }
}

/// Crossing-number point-in-polygon test over the polygon `v`.
pub open spec fn polygon_contains(v: Seq<Point>, p: Point) -> bool {
    crossings(v, p, v.len()) % 2 == 1
}

/// The vertex list after the first `n` readback pairs of `data` were written,
/// pair `k` over the vertex that index `k` names (later pairs win).
pub open spec fn apply_readback(v: Seq<Point>, idx: Seq<u32>, data: Seq<i32>, n: nat) -> Seq<Point>
    decreases n,
{
    if n == 0 {
        v
    } else {
        let k = n - 1;
        apply_readback(v, idx, data, k as nat).update(
            idx[k] as int,
            Point { x: data[2 * k], y: data[2 * k + 1] },
        )
    }
}

/// Whether one of the first `n` indices names vertex `m`.
pub open spec fn referenced(idx: Seq<u32>, n: int, m: int) -> bool {
    exists|k: int| 0 <= k < n && idx[k] == m
}

/// A readback of a pure translation by `(dx, dy)` moves the shape by it: when
/// pair `k` of `data` is the vertex that index `k` names, moved by `(dx, dy)`,
/// writing the first `n` pairs moves every vertex that one of them names by
/// `(dx, dy)` and leaves the others as they were.
pub proof fn lemma_readback_of_translation(
    v: Seq<Point>,
    idx: Seq<u32>,
    data: Seq<i32>,
    dx: int,
    dy: int,
    n: nat,
)
    requires
        n <= idx.len(),
        data.len() == 2 * idx.len(),
        forall|k: int| 0 <= k < idx.len() ==> #[trigger] idx[k] < v.len(),
        forall|k: int|
            0 <= k < idx.len() ==> #[trigger] data[2 * k] == v[idx[k] as int].x + dx && data[2 * k + 1]
                == v[idx[k] as int].y + dy,
    ensures
        apply_readback(v, idx, data, n).len() == v.len(),
        forall|m: int|
            0 <= m < v.len() ==> #[trigger] apply_readback(v, idx, data, n)[m] == if referenced(idx, n as int, m) {
                Point { x: (v[m].x + dx) as i32, y: (v[m].y + dy) as i32 }
            } else {
                v[m]
            },
    decreases n,
{
    if n > 0 {
        let k = n - 1;
        lemma_readback_of_translation(v, idx, data, dx, dy, k as nat);
        let prev = apply_readback(v, idx, data, k as nat);
        let cur = apply_readback(v, idx, data, n);
        assert(idx[k] < v.len());
        assert(data[2 * k] == v[idx[k] as int].x + dx);
        assert forall|m: int| 0 <= m < v.len() implies #[trigger] cur[m] == if referenced(idx, n as int, m) {
            Point { x: (v[m].x + dx) as i32, y: (v[m].y + dy) as i32 }
        } else {
            v[m]
        } by {
            if m == idx[k] as int {
                assert(referenced(idx, n as int, m));
            } else {
                assert(cur[m] == prev[m]);
                if referenced(idx, n as int, m) {
                    let w = choose|w: int| 0 <= w < n && idx[w] == m;
                    assert(w != k);
                    assert(referenced(idx, k as int, m));
                } else {
                    assert(!referenced(idx, k as int, m));
                }
            }
        }
    }
}

/// Corners of the square `[-1, 1] x [-1, 1]`, in drawing order.
pub open spec fn square_vertices() -> Seq<Point> {
    let lo = (-ONE) as i32;
    seq![Point { x: lo, y: lo }, Point { x: lo, y: ONE }, Point { x: ONE, y: ONE }, Point { x: ONE, y: lo }]
}

/// A polygon (vertex list), its triangulation (indices into the vertex list)
/// and the texture it is drawn with.
#[derive(Debug)]
pub struct Shape {
    pub vertices: Vec<Point>,
    pub indices: Vec<u32>,
    pub texture_id: usize,
}

impl Shape {
    /// Every index names a vertex.
    pub open spec fn wf(&self) -> bool {
        forall|k: int| 0 <= k < self.indices@.len() ==> (#[trigger] self.indices@[k]) < self.vertices@.len()
    }

    /// The square with corners `(-1, -1)` and `(1, 1)`, as two triangles.
    pub fn square(texture_id: usize) -> (r: Shape)
        ensures
            r.wf(),
            r.vertices@ == square_vertices(),
            r.indices@ == seq![0u32, 1, 2, 2, 3, 0],
            r.texture_id == texture_id,
    {
        let lo: i32 = -ONE;
        let r = Shape {
            vertices: vec![Point::new(lo, lo), Point::new(lo, ONE), Point::new(ONE, ONE), Point::new(ONE, lo)],
            indices: vec![0, 1, 2, 2, 3, 0],
            texture_id,
        };
        assert(r.vertices@ =~= square_vertices());
        assert(r.indices@ =~= seq![0u32, 1, 2, 2, 3, 0]);
        r
    }

    /// An equal shape with its own buffers.
    pub fn duplicate(&self) -> (r: Shape)
        ensures
            r.vertices@ == self.vertices@,
            r.indices@ == self.indices@,
            r.texture_id == self.texture_id,
    {
        let vertices = self.vertices.clone();
        let indices = self.indices.clone();
        assert(vertices@ =~= self.vertices@);
        assert(indices@ =~= self.indices@);
        Shape { vertices, indices, texture_id: self.texture_id }
    }

    /// Writes transformed vertex data read back from the GPU: `vertices` holds
    /// `x, y` pairs in index order, and pair `k` overwrites the vertex that
    /// index `k` names (a vertex named twice takes the later pair).
    pub fn update_vertices(&mut self, vertices: &[i32])
        requires
            old(self).wf(),
            vertices@.len() / 2 <= old(self).indices@.len(),
        ensures
            final(self).wf(),
            final(self).indices@ == old(self).indices@,
            final(self).texture_id == old(self).texture_id,
            final(self).vertices@ == apply_readback(
                old(self).vertices@,
                old(self).indices@,
                vertices@,
                (vertices@.len() / 2) as nat,
            ),
    {
        let total: usize = vertices.len();
        let n: usize = total / 2;
        let mut i: usize = 0;
        while i < n
            invariant
                0 <= i <= n,
                total == vertices@.len(),
                n == total / 2,
                n <= self.indices@.len(),
                self.wf(),
                self.indices@ == old(self).indices@,
                self.texture_id == old(self).texture_id,
                self.vertices@ == apply_readback(old(self).vertices@, old(self).indices@, vertices@, i as nat),
            decreases n - i,
        {
            let vert_idx = self.indices[i] as usize;
            self.vertices.set(vert_idx, Point::new(vertices[2 * i], vertices[2 * i + 1]));
            i += 1;
        }
    }

    /// Whether `point` lies inside the polygon of the current vertices: the
    /// number of polygon edges that a horizontal ray from `point` crosses is odd.
    pub fn contains(&self, point: Point) -> (r: bool)
        ensures
            r == polygon_contains(self.vertices@, point),
    {
        let x = point.x as i128;
        let y = point.y as i128;
        let len = self.vertices.len();
        let mut hit = false;
        let mut i: usize = 0;
        while i < len
            invariant
                0 <= i <= len,
                len == self.vertices@.len(),
                x == point.x,
                y == point.y,
                hit == (crossings(self.vertices@, point, i as nat) % 2 == 1),
            decreases len - i,
        {
            let j = (i + 1) % len;
            let p_i = self.vertices[i];
            let p_j = self.vertices[j];
            let (xi, yi) = (p_i.x as i128, p_i.y as i128);
            let (xj, yj) = (p_j.x as i128, p_j.y as i128);
            let d = yj - yi;
            let dx = x - xi;
            let dy = y - yi;
            let ex = xj - xi;
            proof {
                let bound: int = 0x1_0000_0000;
                assert(-bound <= dx <= bound && -bound <= d <= bound ==> -bound * bound <= dx * d <= bound * bound)
                    by (nonlinear_arith);
                assert(-bound <= dy <= bound && -bound <= ex <= bound ==> -bound * bound <= dy * ex <= bound * bound)
                    by (nonlinear_arith);
            }
            let lhs = dx * d;
            let rhs = dy * ex;
            let straddles = (y < yi) != (y < yj);
            let right = if d > 0 { lhs < rhs } else { lhs > rhs };
            if straddles && right {
                hit = !hit;
            }
            i += 1;
        }
        hit
    }
}

} // verus!
