use vstd::prelude::*;
use crate::descriptor::{ShapeDescriptor, ELEMENT_BYTES};
use crate::point::{Point, ONE};
use crate::shape::Shape;

verus! {

/// Components (x and y) per vertex in the shared buffers.
pub const VERTEX_SIZE: usize = 2;

/// Largest number of 32-bit components a shared buffer may hold, so that any
/// byte offset or length within it fits the graphics API's `i32` arguments.
pub const MAX_COMPONENTS: usize = 0x1fff_ffff;

/// `x, y` components of the first `n` vertices of `v`, in order.
pub open spec fn flatten_prefix(v: Seq<Point>, n: int) -> Seq<i32> {
    Seq::new((2 * n) as nat, |j: int| if j % 2 == 0 { v[j / 2].x } else { v[j / 2].y })
}

/// `x, y` components of every vertex of `v`, in order.
pub open spec fn flatten_vertices(v: Seq<Point>) -> Seq<i32> {
    flatten_prefix(v, v.len() as int)
}

/// `x, y` components of the vertices that the first `n` indices name, in
/// index order (a vertex named twice appears twice).
pub open spec fn flatten_indexed_prefix(v: Seq<Point>, idx: Seq<u32>, n: int) -> Seq<i32> {
    Seq::new(
        (2 * n) as nat,
        |j: int| if j % 2 == 0 { v[idx[j / 2] as int].x } else { v[idx[j / 2] as int].y },
    )
}

/// The shape's triangles as a plain vertex run: one vertex per index.
pub open spec fn flatten_indexed(v: Seq<Point>, idx: Seq<u32>) -> Seq<i32> {
    flatten_indexed_prefix(v, idx, idx.len() as int)
}

/// The first `n` indices of `idx`, each moved up by `base`.
pub open spec fn shift_prefix(idx: Seq<u32>, base: int, n: int) -> Seq<u32> {
    Seq::new(n as nat, |k: int| (idx[k] + base) as u32)
}

/// Every index of `idx` moved up by `base`.
pub open spec fn shift_indices(idx: Seq<u32>, base: int) -> Seq<u32> {
    shift_prefix(idx, base, idx.len() as int)
}

/// Placement of a shape: an offset interpreted either as the diagonal of a
/// scale matrix or as a translation, both fixed-point (see `ONE`).
#[derive(Debug, Clone, Copy, PartialEq, Eq, Structural)]
pub struct TransformInfo(pub i32, pub i32);

/// Column-major diagonal matrix `(sx, sy, 1, 1)`.
pub open spec fn scale_spec(sx: i32, sy: i32) -> Seq<i32> {
    seq![sx, 0, 0, 0, 0, sy, 0, 0, 0, 0, ONE, 0, 0, 0, 0, ONE]
}

/// Column-major identity with `(tx, ty, 0, 1)` as its last column.
pub open spec fn translation_spec(tx: i32, ty: i32) -> Seq<i32> {
    seq![ONE, 0, 0, 0, 0, ONE, 0, 0, 0, 0, ONE, 0, tx, ty, 0, ONE]
}

/// Column-major 4x4 matrix applied to a column vector, in exact integer
/// arithmetic: with fixed-point entries the result carries one factor `ONE`
/// more than its operands.
pub open spec fn mat_apply(m: Seq<int>, v: Seq<int>) -> Seq<int> {
    Seq::new(4, |r: int| m[r] * v[0] + m[4 + r] * v[1] + m[8 + r] * v[2] + m[12 + r] * v[3])
}

/// Product `a * b` of column-major 4x4 matrices, in exact integer arithmetic.
pub open spec fn mat_mul(a: Seq<int>, b: Seq<int>) -> Seq<int> {
    Seq::new(
        16,
        |e: int|
            {
                let (c, r) = (e / 4, e % 4);
                a[r] * b[4 * c] + a[4 + r] * b[4 * c + 1] + a[8 + r] * b[4 * c + 2] + a[12 + r] * b[4 * c + 3]
            },
    )
}

/// Entries of a matrix as mathematical integers.
pub open spec fn entries(m: Seq<i32>) -> Seq<int> {
    m.map_values(|e: i32| e as int)
}

/// Composition order `translation * scale * vertex`: the vertex `(x, y, 0, 1)`
/// is scaled by `s` and then moved by `t`, to `(s.0 * x + t.0, s.1 * y + t.1,
/// 0, 1)` in fixed point; applying the composed matrix gives the same as
/// applying scale and translation in turn. The translation alone moves the
/// origin `(0, 0, 0, 1)` to `(t.0, t.1, 0, 1)`, and the scale alone takes
/// `(1, 1, 0, 1)` to `(s.0, s.1, 0, 1)`.
pub proof fn lemma_translation_scale_composition(t: TransformInfo, s: TransformInfo, x: int, y: int)
    ensures
        ({
            let tm = entries(translation_spec(t.0, t.1));
            let sm = entries(scale_spec(s.0, s.1));
            let v = seq![x, y, 0, ONE as int];
            let expected = seq![
                ONE * (s.0 * x + ONE * t.0),
                ONE * (s.1 * y + ONE * t.1),
                0,
                ONE * ONE * ONE,
            ];
            &&& mat_apply(tm, mat_apply(sm, v)) == expected
            &&& mat_apply(mat_mul(tm, sm), v) == expected
            &&& mat_apply(tm, seq![0, 0, 0, ONE as int]) == seq![ONE * t.0, ONE * t.1, 0, ONE * ONE]
            &&& mat_apply(sm, seq![ONE as int, ONE as int, 0, ONE as int]) == seq![
                ONE * s.0,
                ONE * s.1,
                0,
                ONE * ONE,
            ]
        }),
{
    let tm = entries(translation_spec(t.0, t.1));
    let sm = entries(scale_spec(s.0, s.1));
    let v = seq![x, y, 0, ONE as int];
    let expected = seq![ONE * (s.0 * x + ONE * t.0), ONE * (s.1 * y + ONE * t.1), 0, ONE * ONE * ONE];
    assert(tm =~= seq![ONE as int, 0, 0, 0, 0, ONE as int, 0, 0, 0, 0, ONE as int, 0, t.0 as int, t.1 as int, 0, ONE as int]);
    assert(sm =~= seq![s.0 as int, 0, 0, 0, 0, s.1 as int, 0, 0, 0, 0, ONE as int, 0, 0, 0, 0, ONE as int]);
    let prod = mat_mul(tm, sm);
    let o = ONE as int;
    let (t0, t1, s0, s1) = (t.0 as int, t.1 as int, s.0 as int, s.1 as int);
    assert(sm[0] == s0 && sm[1] == 0 && sm[2] == 0 && sm[3] == 0);
    assert(sm[4] == 0 && sm[5] == s1 && sm[6] == 0 && sm[7] == 0);
    assert(tm[0] == o && tm[4] == 0 && tm[8] == 0 && tm[12] == t0);
    assert(tm[1] == 0 && tm[5] == o && tm[9] == 0 && tm[13] == t1);
    assert(tm[2] == 0 && tm[6] == 0 && tm[10] == o && tm[14] == 0);
    assert(tm[3] == 0 && tm[7] == 0 && tm[11] == 0 && tm[15] == o);
    assert(prod[0] == o * s0) by (nonlinear_arith)
        requires
            prod[0] == tm[0] * sm[0] + tm[4] * sm[1] + tm[8] * sm[2] + tm[12] * sm[3],
            tm[0] == o, sm[0] == s0, sm[1] == 0, sm[2] == 0, sm[3] == 0,
    ;
    assert(prod[1] == 0) by (nonlinear_arith)
        requires
            prod[1] == tm[1] * sm[0] + tm[5] * sm[1] + tm[9] * sm[2] + tm[13] * sm[3],
            tm[1] == 0, sm[1] == 0, sm[2] == 0, sm[3] == 0,
    ;
    assert(prod[2] == 0 && prod[3] == 0);
    assert(prod[5] == o * s1) by (nonlinear_arith)
        requires
            prod[5] == tm[1] * sm[4] + tm[5] * sm[5] + tm[9] * sm[6] + tm[13] * sm[7],
            tm[5] == o, sm[5] == s1, sm[4] == 0, sm[6] == 0, sm[7] == 0,
    ;
    assert(prod[4] == 0) by (nonlinear_arith)
        requires
            prod[4] == tm[0] * sm[4] + tm[4] * sm[5] + tm[8] * sm[6] + tm[12] * sm[7],
            tm[4] == 0, sm[4] == 0, sm[6] == 0, sm[7] == 0,
    ;
    assert(prod[6] == 0 && prod[7] == 0);
    assert(sm[8] == 0 && sm[9] == 0 && sm[10] == o && sm[11] == 0);
    assert(sm[12] == 0 && sm[13] == 0 && sm[14] == 0 && sm[15] == o);
    assert(prod[8] == 0) by (nonlinear_arith)
        requires
            prod[8] == tm[0] * sm[8] + tm[4] * sm[9] + tm[8] * sm[10] + tm[12] * sm[11],
            tm[0] == o, tm[4] == 0, tm[8] == 0, tm[12] == t0, sm[8] == 0, sm[9] == 0, sm[10] == o, sm[11] == 0,
    ;
    assert(prod[9] == 0) by (nonlinear_arith)
        requires
            prod[9] == tm[1] * sm[8] + tm[5] * sm[9] + tm[9] * sm[10] + tm[13] * sm[11],
            tm[1] == 0, tm[5] == o, tm[9] == 0, tm[13] == t1, sm[8] == 0, sm[9] == 0, sm[10] == o, sm[11] == 0,
    ;
    assert(prod[10] == o * o) by (nonlinear_arith)
        requires
            prod[10] == tm[2] * sm[8] + tm[6] * sm[9] + tm[10] * sm[10] + tm[14] * sm[11],
            tm[2] == 0, tm[6] == 0, tm[10] == o, tm[14] == 0, sm[8] == 0, sm[9] == 0, sm[10] == o, sm[11] == 0,
    ;
    assert(prod[11] == 0) by (nonlinear_arith)
        requires
            prod[11] == tm[3] * sm[8] + tm[7] * sm[9] + tm[11] * sm[10] + tm[15] * sm[11],
            tm[3] == 0, tm[7] == 0, tm[11] == 0, tm[15] == o, sm[8] == 0, sm[9] == 0, sm[10] == o, sm[11] == 0,
    ;
    assert(prod[12] == o * t0) by (nonlinear_arith)
        requires
            prod[12] == tm[0] * sm[12] + tm[4] * sm[13] + tm[8] * sm[14] + tm[12] * sm[15],
            tm[0] == o, tm[4] == 0, tm[8] == 0, tm[12] == t0, sm[12] == 0, sm[13] == 0, sm[14] == 0, sm[15] == o,
    ;
    assert(prod[13] == o * t1) by (nonlinear_arith)
        requires
            prod[13] == tm[1] * sm[12] + tm[5] * sm[13] + tm[9] * sm[14] + tm[13] * sm[15],
            tm[1] == 0, tm[5] == o, tm[9] == 0, tm[13] == t1, sm[12] == 0, sm[13] == 0, sm[14] == 0, sm[15] == o,
    ;
    assert(prod[14] == 0) by (nonlinear_arith)
        requires
            prod[14] == tm[2] * sm[12] + tm[6] * sm[13] + tm[10] * sm[14] + tm[14] * sm[15],
            tm[2] == 0, tm[6] == 0, tm[10] == o, tm[14] == 0, sm[12] == 0, sm[13] == 0, sm[14] == 0, sm[15] == o,
    ;
    assert(prod[15] == o * o) by (nonlinear_arith)
        requires
            prod[15] == tm[3] * sm[12] + tm[7] * sm[13] + tm[11] * sm[14] + tm[15] * sm[15],
            tm[3] == 0, tm[7] == 0, tm[11] == 0, tm[15] == o, sm[12] == 0, sm[13] == 0, sm[14] == 0, sm[15] == o,
    ;
    let sv = mat_apply(sm, v);
    assert(sv[0] == s0 * x) by (nonlinear_arith)
        requires
            sv[0] == sm[0] * v[0] + sm[4] * v[1] + sm[8] * v[2] + sm[12] * v[3],
            sm[0] == s0, sm[4] == 0, sm[8] == 0, sm[12] == 0, v[0] == x, v[1] == y, v[2] == 0, v[3] == o,
    ;
    assert(sv[1] == s1 * y) by (nonlinear_arith)
        requires
            sv[1] == sm[1] * v[0] + sm[5] * v[1] + sm[9] * v[2] + sm[13] * v[3],
            sm[1] == 0, sm[5] == s1, sm[9] == 0, sm[13] == 0, v[0] == x, v[1] == y, v[2] == 0, v[3] == o,
    ;
    assert(sv[2] == 0) by (nonlinear_arith)
        requires
            sv[2] == sm[2] * v[0] + sm[6] * v[1] + sm[10] * v[2] + sm[14] * v[3],
            sm[2] == 0, sm[6] == 0, sm[10] == o, sm[14] == 0, v[0] == x, v[1] == y, v[2] == 0, v[3] == o,
    ;
    assert(sv[3] == o * o) by (nonlinear_arith)
        requires
            sv[3] == sm[3] * v[0] + sm[7] * v[1] + sm[11] * v[2] + sm[15] * v[3],
            sm[3] == 0, sm[7] == 0, sm[11] == 0, sm[15] == o, v[0] == x, v[1] == y, v[2] == 0, v[3] == o,
    ;
    let tsv = mat_apply(tm, sv);
    assert(tsv[0] == o * (s0 * x + o * t0)) by (nonlinear_arith)
        requires
            tsv[0] == tm[0] * sv[0] + tm[4] * sv[1] + tm[8] * sv[2] + tm[12] * sv[3],
            tm[0] == o, tm[4] == 0, tm[8] == 0, tm[12] == t0, sv[0] == s0 * x, sv[1] == s1 * y, sv[2] == 0, sv[3] == o * o,
    ;
    assert(tsv[1] == o * (s1 * y + o * t1)) by (nonlinear_arith)
        requires
            tsv[1] == tm[1] * sv[0] + tm[5] * sv[1] + tm[9] * sv[2] + tm[13] * sv[3],
            tm[1] == 0, tm[5] == o, tm[9] == 0, tm[13] == t1, sv[0] == s0 * x, sv[1] == s1 * y, sv[2] == 0, sv[3] == o * o,
    ;
    assert(tsv[2] == 0) by (nonlinear_arith)
        requires
            tsv[2] == tm[2] * sv[0] + tm[6] * sv[1] + tm[10] * sv[2] + tm[14] * sv[3],
            tm[2] == 0, tm[6] == 0, tm[10] == o, tm[14] == 0, sv[0] == s0 * x, sv[1] == s1 * y, sv[2] == 0, sv[3] == o * o,
    ;
    assert(tsv[3] == o * o * o) by (nonlinear_arith)
        requires
            tsv[3] == tm[3] * sv[0] + tm[7] * sv[1] + tm[11] * sv[2] + tm[15] * sv[3],
            tm[3] == 0, tm[7] == 0, tm[11] == 0, tm[15] == o, sv[0] == s0 * x, sv[1] == s1 * y, sv[2] == 0, sv[3] == o * o,
    ;
    let pv = mat_apply(prod, v);
    assert(pv[0] == o * (s0 * x + o * t0)) by (nonlinear_arith)
        requires
            pv[0] == prod[0] * v[0] + prod[4] * v[1] + prod[8] * v[2] + prod[12] * v[3],
            prod[0] == o * s0, prod[4] == 0, prod[8] == 0, prod[12] == o * t0, v[0] == x, v[1] == y, v[2] == 0, v[3] == o,
    ;
    assert(pv[1] == o * (s1 * y + o * t1)) by (nonlinear_arith)
        requires
            pv[1] == prod[1] * v[0] + prod[5] * v[1] + prod[9] * v[2] + prod[13] * v[3],
            prod[1] == 0, prod[5] == o * s1, prod[9] == 0, prod[13] == o * t1, v[0] == x, v[1] == y, v[2] == 0, v[3] == o,
    ;
    assert(pv[2] == 0) by (nonlinear_arith)
        requires
            pv[2] == prod[2] * v[0] + prod[6] * v[1] + prod[10] * v[2] + prod[14] * v[3],
            prod[2] == 0, prod[6] == 0, prod[10] == o * o, prod[14] == 0, v[0] == x, v[1] == y, v[2] == 0, v[3] == o,
    ;
    assert(pv[3] == o * o * o) by (nonlinear_arith)
        requires
            pv[3] == prod[3] * v[0] + prod[7] * v[1] + prod[11] * v[2] + prod[15] * v[3],
            prod[3] == 0, prod[7] == 0, prod[11] == 0, prod[15] == o * o, v[0] == x, v[1] == y, v[2] == 0, v[3] == o,
    ;
    assert(tsv =~= expected);
    assert(pv =~= expected);
    let u0 = seq![0, 0, 0, o];
    let tu = mat_apply(tm, u0);
    assert(tu[0] == o * t0) by (nonlinear_arith)
        requires
            tu[0] == tm[0] * u0[0] + tm[4] * u0[1] + tm[8] * u0[2] + tm[12] * u0[3],
            tm[0] == o, tm[4] == 0, tm[8] == 0, tm[12] == t0, u0[0] == 0, u0[1] == 0, u0[2] == 0, u0[3] == o,
    ;
    assert(tu[1] == o * t1) by (nonlinear_arith)
        requires
            tu[1] == tm[1] * u0[0] + tm[5] * u0[1] + tm[9] * u0[2] + tm[13] * u0[3],
            tm[1] == 0, tm[5] == o, tm[9] == 0, tm[13] == t1, u0[0] == 0, u0[1] == 0, u0[2] == 0, u0[3] == o,
    ;
    assert(tu[2] == 0) by (nonlinear_arith)
        requires
            tu[2] == tm[2] * u0[0] + tm[6] * u0[1] + tm[10] * u0[2] + tm[14] * u0[3],
            tm[2] == 0, tm[6] == 0, tm[10] == o, tm[14] == 0, u0[0] == 0, u0[1] == 0, u0[2] == 0, u0[3] == o,
    ;
    assert(tu[3] == o * o) by (nonlinear_arith)
        requires
            tu[3] == tm[3] * u0[0] + tm[7] * u0[1] + tm[11] * u0[2] + tm[15] * u0[3],
            tm[3] == 0, tm[7] == 0, tm[11] == 0, tm[15] == o, u0[0] == 0, u0[1] == 0, u0[2] == 0, u0[3] == o,
    ;
    assert(tu =~= seq![o * t0, o * t1, 0, o * o]);
    let u1 = seq![o, o, 0, o];
    let su = mat_apply(sm, u1);
    assert(su[0] == o * s0) by (nonlinear_arith)
        requires
            su[0] == sm[0] * u1[0] + sm[4] * u1[1] + sm[8] * u1[2] + sm[12] * u1[3],
            sm[0] == s0, sm[4] == 0, sm[8] == 0, sm[12] == 0, u1[0] == o, u1[1] == o, u1[2] == 0, u1[3] == o,
    ;
    assert(su[1] == o * s1) by (nonlinear_arith)
        requires
            su[1] == sm[1] * u1[0] + sm[5] * u1[1] + sm[9] * u1[2] + sm[13] * u1[3],
            sm[1] == 0, sm[5] == s1, sm[9] == 0, sm[13] == 0, u1[0] == o, u1[1] == o, u1[2] == 0, u1[3] == o,
    ;
    assert(su[2] == 0) by (nonlinear_arith)
        requires
            su[2] == sm[2] * u1[0] + sm[6] * u1[1] + sm[10] * u1[2] + sm[14] * u1[3],
            sm[2] == 0, sm[6] == 0, sm[10] == o, sm[14] == 0, u1[0] == o, u1[1] == o, u1[2] == 0, u1[3] == o,
    ;
    assert(su[3] == o * o) by (nonlinear_arith)
        requires
            su[3] == sm[3] * u1[0] + sm[7] * u1[1] + sm[11] * u1[2] + sm[15] * u1[3],
            sm[3] == 0, sm[7] == 0, sm[11] == 0, sm[15] == o, u1[0] == o, u1[1] == o, u1[2] == 0, u1[3] == o,
    ;
    assert(su =~= seq![o * s0, o * s1, 0, o * o]);
}

impl TransformInfo {
    /// Scale matrix, column-major, fixed-point entries.
    pub fn scale_matrix(&self) -> (r: [i32; 16])
        ensures
            r@ == scale_spec(self.0, self.1),
    {
        let r = [self.0, 0, 0, 0, 0, self.1, 0, 0, 0, 0, ONE, 0, 0, 0, 0, ONE];
        assert(r@ =~= scale_spec(self.0, self.1));
        r
    }

    /// Translation matrix, column-major, fixed-point entries.
    pub fn translation_matrix(&self) -> (r: [i32; 16])
        ensures
            r@ == translation_spec(self.0, self.1),
    {
        let r = [ONE, 0, 0, 0, 0, ONE, 0, 0, 0, 0, ONE, 0, self.0, self.1, 0, ONE];
        assert(r@ =~= translation_spec(self.0, self.1));
        r
    }

    /// Identity matrix, for shapes drawn without a placement.
    pub fn id() -> (r: [i32; 16])
        ensures
            r@ == translation_spec(0, 0),
            r@ == scale_spec(ONE, ONE),
    {
        let r = [ONE, 0, 0, 0, 0, ONE, 0, 0, 0, 0, ONE, 0, 0, 0, 0, ONE];
        assert(r@ =~= translation_spec(0, 0));
        assert(r@ =~= scale_spec(ONE, ONE));
        r
    }
}

/// CPU side of the indexed renderer: one vertex buffer and one index buffer
/// shared by all shapes, with a descriptor per shape in index units.
#[derive(Debug)]
pub struct IndicesRender {
    vertices: Vec<i32>,
    indices: Vec<u32>,
    descriptors: Vec<ShapeDescriptor>,
}

impl IndicesRender {
    pub closed spec fn vertices_view(&self) -> Seq<i32> {
        self.vertices@
    }

    pub closed spec fn indices_view(&self) -> Seq<u32> {
        self.indices@
    }

    pub closed spec fn descriptors_view(&self) -> Seq<ShapeDescriptor> {
        self.descriptors@
    }

    /// Whole vertices, every index names one of them, and every descriptor
    /// lies within the index buffer.
    pub open spec fn wf(&self) -> bool {
        &&& self.vertices_view().len() % 2 == 0
        &&& self.vertices_view().len() <= MAX_COMPONENTS
        &&& self.indices_view().len() <= MAX_COMPONENTS
        &&& forall|k: int|
            0 <= k < self.indices_view().len() ==> (#[trigger] self.indices_view()[k]) < self.vertices_view().len() / 2
        &&& forall|s: int|
            0 <= s < self.descriptors_view().len() ==> (#[trigger] self.descriptors_view()[s]).offset
                + self.descriptors_view()[s].count <= self.indices_view().len()
    }

    pub fn new() -> (r: IndicesRender)
        ensures
            r.wf(),
            r.vertices_view().len() == 0,
            r.indices_view().len() == 0,
            r.descriptors_view().len() == 0,
    {
        IndicesRender { vertices: Vec::new(), indices: Vec::new(), descriptors: Vec::new() }
    }

    /// Appends the shape's vertices, and its indices moved past the vertices
    /// already held, and records the shape's run of indices.
    pub fn add(&mut self, shape: &Shape)
        requires
            old(self).wf(),
            shape.wf(),
            old(self).vertices_view().len() + 2 * shape.vertices@.len() <= MAX_COMPONENTS,
            old(self).indices_view().len() + shape.indices@.len() <= MAX_COMPONENTS,
        ensures
            final(self).wf(),
            final(self).vertices_view() == old(self).vertices_view() + flatten_vertices(shape.vertices@),
            final(self).indices_view() == old(self).indices_view() + shift_indices(
                shape.indices@,
                (old(self).vertices_view().len() / 2) as int,
            ),
            final(self).descriptors_view() == old(self).descriptors_view().push(
                ShapeDescriptor {
                    offset: old(self).indices_view().len() as usize,
                    count: shape.indices@.len() as usize,
                },
            ),
    {
        let base: u32 = (self.vertices.len() / 2) as u32;
        let first: usize = self.indices.len();
        let n_idx: usize = shape.indices.len();
        let mut k: usize = 0;
        while k < n_idx
            invariant
                0 <= k <= n_idx,
                n_idx == shape.indices@.len(),
                shape.wf(),
                base == old(self).vertices@.len() / 2,
                first == old(self).indices@.len(),
                old(self).vertices@.len() + 2 * shape.vertices@.len() <= MAX_COMPONENTS,
                self.vertices@ == old(self).vertices@,
                self.descriptors@ == old(self).descriptors@,
                self.indices@ == old(self).indices@ + shift_prefix(shape.indices@, base as int, k as int),
            decreases n_idx - k,
        {
            let index = shape.indices[k];
            self.indices.push(index + base);
            assert(self.indices@ =~= old(self).indices@ + shift_prefix(shape.indices@, base as int, k + 1));
            k += 1;
        }
        self.descriptors.push(ShapeDescriptor { offset: first, count: n_idx });
        let n_vert: usize = shape.vertices.len();
        let mut v: usize = 0;
        while v < n_vert
            invariant
                0 <= v <= n_vert,
                n_vert == shape.vertices@.len(),
                old(self).vertices@.len() + 2 * n_vert <= MAX_COMPONENTS,
                self.indices@ == old(self).indices@ + shift_prefix(shape.indices@, base as int, n_idx as int),
                self.descriptors@ == old(self).descriptors@.push(ShapeDescriptor { offset: first, count: n_idx }),
                self.vertices@ == old(self).vertices@ + flatten_prefix(shape.vertices@, v as int),
            decreases n_vert - v,
        {
            let p = shape.vertices[v];
            self.vertices.push(p.x);
            self.vertices.push(p.y);
            assert(self.vertices@ =~= old(self).vertices@ + flatten_prefix(shape.vertices@, v + 1));
            v += 1;
        }
        proof {
            let nv = self.vertices@.len() / 2;
            assert(self.vertices@.len() == old(self).vertices@.len() + 2 * n_vert);
            assert(nv == old(self).vertices@.len() / 2 + n_vert);
            assert forall|k: int| 0 <= k < self.indices@.len() implies (#[trigger] self.indices@[k]) < nv by {
                if k >= old(self).indices@.len() {
                    let m = k - old(self).indices@.len();
                    assert(0 <= m < shape.indices@.len());
                    assert(shape.indices@[m] < shape.vertices@.len());
                    assert(self.indices@[k] == shift_prefix(shape.indices@, base as int, n_idx as int)[m]);
                } else {
                    assert(self.indices@[k] == old(self).indices@[k]);
                }
            }
            assert forall|s: int| 0 <= s < self.descriptors@.len() implies (#[trigger] self.descriptors@[s]).offset
                + self.descriptors@[s].count <= self.indices@.len() by {
                if s < old(self).descriptors@.len() {
                    assert(self.descriptors@[s] == old(self).descriptors_view()[s]);
                    assert(old(self).descriptors_view()[s].offset + old(self).descriptors_view()[s].count
                        <= old(self).indices_view().len());
                }
            }
        }
    }

    /// Number of shapes added.
    pub fn shape_count(&self) -> (r: usize)
        ensures
            r == self.descriptors_view().len(),
    {
        self.descriptors.len()
    }

    /// The shared vertex buffer, `x, y` per vertex.
    pub fn vertex_data(&self) -> (r: &[i32])
        ensures
            r@ == self.vertices_view(),
    {
        self.vertices.as_slice()
    }

    /// The shared index buffer.
    pub fn index_data(&self) -> (r: &[u32])
        ensures
            r@ == self.indices_view(),
    {
        self.indices.as_slice()
    }

    /// Arguments of the indexed draw of one shape: its number of indices and
    /// the byte offset of its first index.
    pub fn draw_range(&self, shape_idx: usize) -> (r: (i32, i32))
        requires
            self.wf(),
            shape_idx < self.descriptors_view().len(),
        ensures
            r.0 == self.descriptors_view()[shape_idx as int].count,
            r.1 == self.descriptors_view()[shape_idx as int].offset * ELEMENT_BYTES,
    {
        let desc = self.descriptors[shape_idx];
        let offset = desc.offset_bytes(1);
        (desc.count as i32, offset as i32)
    }
}

/// CPU side of the feedback renderer: one vertex buffer holding each shape's
/// triangles as a contiguous, non-indexed run, with a descriptor per shape in
/// vertex units. After a shape is drawn, the GPU's transformed output for its
/// run is stored back over the run.
#[derive(Debug)]
pub struct FeedbackRender {
    vertices: Vec<i32>,
    descriptors: Vec<ShapeDescriptor>,
}

impl FeedbackRender {
    pub closed spec fn vertices_view(&self) -> Seq<i32> {
        self.vertices@
    }

    pub closed spec fn descriptors_view(&self) -> Seq<ShapeDescriptor> {
        self.descriptors@
    }

    /// First component of shape `s`'s run.
    pub open spec fn run_start(&self, s: int) -> int {
        VERTEX_SIZE * self.descriptors_view()[s].offset
    }

    /// One past the last component of shape `s`'s run.
    pub open spec fn run_end(&self, s: int) -> int {
        VERTEX_SIZE * (self.descriptors_view()[s].offset + self.descriptors_view()[s].count)
    }

    /// Whole vertices, and every descriptor lies within the buffer.
    pub open spec fn wf(&self) -> bool {
        &&& self.vertices_view().len() % 2 == 0
        &&& self.vertices_view().len() <= MAX_COMPONENTS
        &&& forall|s: int|
            0 <= s < self.descriptors_view().len() ==> #[trigger] self.run_end(s) <= self.vertices_view().len()
    }

    pub fn new() -> (r: FeedbackRender)
        ensures
            r.wf(),
            r.vertices_view().len() == 0,
            r.descriptors_view().len() == 0,
    {
        FeedbackRender { vertices: Vec::new(), descriptors: Vec::new() }
    }

    /// Appends the vertex that each of the shape's indices names, in index
    /// order, and records that run.
    pub fn add(&mut self, shape: &Shape)
        requires
            old(self).wf(),
            shape.wf(),
            old(self).vertices_view().len() + 2 * shape.indices@.len() <= MAX_COMPONENTS,
        ensures
            final(self).wf(),
            final(self).vertices_view() == old(self).vertices_view() + flatten_indexed(
                shape.vertices@,
                shape.indices@,
            ),
            final(self).descriptors_view() == old(self).descriptors_view().push(
                ShapeDescriptor {
                    offset: (old(self).vertices_view().len() / 2) as usize,
                    count: shape.indices@.len() as usize,
                },
            ),
    {
        let offset: usize = self.vertices.len() / VERTEX_SIZE;
        let n: usize = shape.indices.len();
        self.descriptors.push(ShapeDescriptor { offset, count: n });
        let mut k: usize = 0;
        while k < n
            invariant
                0 <= k <= n,
                n == shape.indices@.len(),
                shape.wf(),
                old(self).vertices@.len() + 2 * n <= MAX_COMPONENTS,
                self.descriptors@ == old(self).descriptors@.push(ShapeDescriptor { offset, count: n }),
                offset == old(self).vertices@.len() / 2,
                self.vertices@ == old(self).vertices@ + flatten_indexed_prefix(
                    shape.vertices@,
                    shape.indices@,
                    k as int,
                ),
            decreases n - k,
        {
            let i = shape.indices[k] as usize;
            let p = shape.vertices[i];
            self.vertices.push(p.x);
            self.vertices.push(p.y);
            assert(self.vertices@ =~= old(self).vertices@ + flatten_indexed_prefix(
                shape.vertices@,
                shape.indices@,
                k + 1,
            ));
            k += 1;
        }
        proof {
            assert forall|s: int| 0 <= s < self.descriptors@.len() implies #[trigger] self.run_end(s)
                <= self.vertices@.len() by {
                if s < old(self).descriptors@.len() {
                    assert(self.descriptors@[s] == old(self).descriptors@[s]);
                    assert(old(self).run_end(s) <= old(self).vertices@.len());
                }
            }
        }
    }

    /// Number of shapes added.
    pub fn shape_count(&self) -> (r: usize)
        ensures
            r == self.descriptors_view().len(),
    {
        self.descriptors.len()
    }

    /// The shared vertex buffer, `x, y` per vertex.
    pub fn vertex_data(&self) -> (r: &[i32])
        ensures
            r@ == self.vertices_view(),
    {
        self.vertices.as_slice()
    }

    /// Arguments of the non-indexed draw of one shape: its first vertex and
    /// its number of vertices.
    pub fn draw_range(&self, shape_idx: usize) -> (r: (i32, i32))
        requires
            self.wf(),
            shape_idx < self.descriptors_view().len(),
        ensures
            r.0 == self.descriptors_view()[shape_idx as int].offset,
            r.1 == self.descriptors_view()[shape_idx as int].count,
    {
        let desc = self.descriptors[shape_idx];
        assert(self.run_end(shape_idx as int) <= self.vertices@.len());
        (desc.offset as i32, desc.count as i32)
    }

    /// Byte offset and byte length of one shape's run in the feedback buffer.
    pub fn readback_range(&self, shape_idx: usize) -> (r: (u32, u32))
        requires
            self.wf(),
            shape_idx < self.descriptors_view().len(),
        ensures
            r.0 == self.run_start(shape_idx as int) * ELEMENT_BYTES,
            r.1 == (self.run_end(shape_idx as int) - self.run_start(shape_idx as int)) * ELEMENT_BYTES,
    {
        let desc = self.descriptors[shape_idx];
        assert(self.run_end(shape_idx as int) <= self.vertices@.len());
        (desc.offset_bytes(VERTEX_SIZE), desc.size_bytes(VERTEX_SIZE))
    }

    /// Overwrites one shape's run with the transformed components read back
    /// from the GPU after that shape's draw.
    pub fn store_readback(&mut self, shape_idx: usize, data: &[i32])
        requires
            old(self).wf(),
            shape_idx < old(self).descriptors_view().len(),
            data@.len() == old(self).run_end(shape_idx as int) - old(self).run_start(shape_idx as int),
        ensures
            final(self).wf(),
            final(self).descriptors_view() == old(self).descriptors_view(),
            final(self).vertices_view() == old(self).vertices_view().subrange(
                0,
                old(self).run_start(shape_idx as int),
            ) + data@ + old(self).vertices_view().subrange(
                old(self).run_end(shape_idx as int),
                old(self).vertices_view().len() as int,
            ),
    {
        assert(self.run_end(shape_idx as int) <= self.vertices@.len());
        let range = self.descriptors[shape_idx].vertex_range(VERTEX_SIZE);
        let start = range.start;
        let n = data.len();
        let mut k: usize = 0;
        while k < n
            invariant
                0 <= k <= n,
                n == data@.len(),
                start == old(self).run_start(shape_idx as int),
                start + n <= old(self).vertices@.len(),
                old(self).vertices@.len() <= MAX_COMPONENTS,
                self.descriptors@ == old(self).descriptors@,
                self.vertices@.len() == old(self).vertices@.len(),
                forall|m: int|
                    0 <= m < self.vertices@.len() ==> #[trigger] self.vertices@[m] == if start <= m < start + k {
                        data@[m - start]
                    } else {
                        old(self).vertices@[m]
                    },
            decreases n - k,
        {
            self.vertices.set(start + k, data[k]);
            k += 1;
        }
        assert(self.vertices@ =~= old(self).vertices@.subrange(0, start as int) + data@
            + old(self).vertices@.subrange(start + n, old(self).vertices@.len() as int));
        assert forall|s: int| 0 <= s < self.descriptors@.len() implies #[trigger] self.run_end(s)
            <= self.vertices@.len() by {
            assert(old(self).run_end(s) <= old(self).vertices@.len());
        }
    }

    /// The components of one shape's run: after that shape's draw, its
    /// transformed vertices in index order.
    pub fn read_vertices(&self, shape_idx: usize) -> (r: &[i32])
        requires
            self.wf(),
            shape_idx < self.descriptors_view().len(),
        ensures
            r@ == self.vertices_view().subrange(self.run_start(shape_idx as int), self.run_end(shape_idx as int)),
    {
        assert(self.run_end(shape_idx as int) <= self.vertices@.len());
        let range = self.descriptors[shape_idx].vertex_range(VERTEX_SIZE);
        vstd::slice::slice_subrange(self.vertices.as_slice(), range.start, range.end)
    }
}

} // verus!
