//! Rescaling a raw mesh into the unit cube and deriving planar texture
//! coordinates.
//!
//! The scale is `M = max(FX_ONE, max |component|)` over every vertex
//! position; each output position is the input position divided by `M`, each
//! texture coordinate is the normalized X or Y mapped from `[-1, 1]` onto
//! `[0, 1]`, and face normals pass through unscaled (the scale is uniform).

use vstd::prelude::*;
use crate::fixed::{
    fx_abs, fx_div, fx_max, fxabs, fxdiv, fxmax, lemma_fx_div_by_one, lemma_fx_div_unit_bound,
    FX_COORD_MAX, FX_ONE,
};
use crate::mesh::{coord_wf, mesh_wf, tri_wf, Mesh, NormalizedModel, Tex2, Triangle, Vec3, Vertex};

verus! {

/// Largest component magnitude of one position.
pub open spec fn vec3_max_abs(v: Vec3) -> int {
    fx_max(fx_max(fx_abs(v.x as int), fx_abs(v.y as int)), fx_abs(v.z as int))
}

/// Largest component magnitude over the three corners of a triangle.
pub open spec fn tri_max_abs(t: Triangle) -> int {
    fx_max(fx_max(vec3_max_abs(t.a), vec3_max_abs(t.b)), vec3_max_abs(t.c))
}

/// Largest component magnitude over a whole mesh; zero for an empty mesh.
pub open spec fn mesh_max_abs(tris: Seq<Triangle>) -> int
    decreases tris.len(),
{
    if tris.len() == 0 {
        0
    } else {
        fx_max(mesh_max_abs(tris.drop_last()), tri_max_abs(tris.last()))
    }
}

/// The normalization divisor: the mesh's largest component magnitude, floored
/// at one unit so a degenerate mesh is neither inflated nor divided by zero.
pub open spec fn mesh_scale(tris: Seq<Triangle>) -> int {
    fx_max(FX_ONE as int, mesh_max_abs(tris))
}

/// One coordinate rescaled into units of `m`.
pub open spec fn norm_coord(c: int, m: int) -> int {
    fx_div(c, m)
}

/// A normalized coordinate in `[-FX_ONE, FX_ONE]` mapped onto `[0, FX_ONE]`:
/// the planar texture projection of one axis.
pub open spec fn tex_coord(nc: int) -> int {
    (nc + FX_ONE) / 2
}

/// A position rescaled component-wise into units of `m`.
pub open spec fn norm_vec3(p: Vec3, m: int) -> Vec3 {
    Vec3 {
        x: norm_coord(p.x as int, m) as i64,
        y: norm_coord(p.y as int, m) as i64,
        z: norm_coord(p.z as int, m) as i64,
    }
}

/// The output vertex for corner `j` of triangle `t` under scale `m`.
pub open spec fn norm_vertex(t: Triangle, j: int, m: int) -> Vertex {
    let p = t.corner(j);
    Vertex {
        pos: norm_vec3(p, m),
        tex: Tex2 {
            u: tex_coord(norm_coord(p.x as int, m)) as i64,
            v: tex_coord(norm_coord(p.y as int, m)) as i64,
        },
        normal: t.normal,
    }
}

/// The whole normalized output: entry `k` comes from corner `k % 3` of
/// triangle `k / 3`, so triangle order and winding order are preserved.
pub open spec fn normalize_spec(tris: Seq<Triangle>) -> Seq<Vertex> {
    Seq::new(
        (3 * tris.len()) as nat,
        |k: int| norm_vertex(tris[k / 3], k % 3, mesh_scale(tris)),
    )
}

/// The mesh's largest component magnitude is never negative.
pub proof fn lemma_mesh_max_abs_nonneg(tris: Seq<Triangle>)
    ensures
        0 <= mesh_max_abs(tris),
    decreases tris.len(),
{
    if tris.len() > 0 {
        lemma_mesh_max_abs_nonneg(tris.drop_last());
    }
}

/// Every triangle's components are bounded by the mesh maximum.
pub proof fn lemma_tri_le_mesh_max_abs(tris: Seq<Triangle>, i: int)
    requires
        0 <= i < tris.len(),
    ensures
        tri_max_abs(tris[i]) <= mesh_max_abs(tris),
    decreases tris.len(),
{
    if i < tris.len() - 1 {
        lemma_tri_le_mesh_max_abs(tris.drop_last(), i);
    }
}

/// On a well-formed mesh the maximum stays within the coordinate ceiling.
pub proof fn lemma_mesh_max_abs_wf(tris: Seq<Triangle>)
    requires
        mesh_wf(tris),
    ensures
        mesh_max_abs(tris) <= FX_COORD_MAX,
    decreases tris.len(),
{
    if tris.len() > 0 {
        assert(mesh_wf(tris.drop_last())) by {
            assert(forall|i: int|
                0 <= i < tris.drop_last().len() ==> tris.drop_last()[i] == #[trigger] tris[i]);
        }
        lemma_mesh_max_abs_wf(tris.drop_last());
        assert(tri_wf(tris[tris.len() - 1]));
        assert(tris.last() == tris[tris.len() - 1]);
    }
}

/// If every component already lies within one unit, the scale is exactly one
/// unit and rescaling moves nothing: positions come out unchanged.
pub proof fn lemma_unit_scale_identity(tris: Seq<Triangle>)
    requires
        mesh_max_abs(tris) <= FX_ONE,
    ensures
        mesh_scale(tris) == FX_ONE,
        forall|k: int| 0 <= k < normalize_spec(tris).len()
            ==> (#[trigger] normalize_spec(tris)[k]).pos == tris[k / 3].corner(k % 3),
{
    assert forall|k: int| 0 <= k < normalize_spec(tris).len()
        implies (#[trigger] normalize_spec(tris)[k]).pos == tris[k / 3].corner(k % 3) by {
        let p = tris[k / 3].corner(k % 3);
        lemma_fx_div_by_one(p.x as int);
        lemma_fx_div_by_one(p.y as int);
        lemma_fx_div_by_one(p.z as int);
    }
}

/// Exact per-triangle maximum of the nine position component magnitudes.
fn tri_scale(t: &Triangle) -> (s: i64)
    requires
        tri_wf(*t),
    ensures
        s == tri_max_abs(*t),
{
    let sa = fxmax(fxmax(fxabs(t.a.x), fxabs(t.a.y)), fxabs(t.a.z));
    let sb = fxmax(fxmax(fxabs(t.b.x), fxabs(t.b.y)), fxabs(t.b.z));
    let sc = fxmax(fxmax(fxabs(t.c.x), fxabs(t.c.y)), fxabs(t.c.z));
    fxmax(fxmax(sa, sb), sc)
}

/// The normalization divisor of a mesh, floored at one unit.
pub fn compute_scale(m: &Mesh) -> (s: i64)
    requires
        m.wf(),
    ensures
        s == mesh_scale(m.tris@),
        FX_ONE <= s <= FX_COORD_MAX,
{
    let n = m.tris.len();
    let mut best: i64 = FX_ONE;
    let mut i: usize = 0;
    while i < n
        invariant
            m.wf(),
            n == m.tris@.len(),
            0 <= i <= n,
            best == mesh_scale(m.tris@.subrange(0, i as int)),
            FX_ONE <= best <= FX_COORD_MAX,
        decreases n - i,
    {
        let t = &m.tris[i];
        proof {
            assert(tri_wf(m.tris@[i as int]));
        }
        let ts = tri_scale(t);
        proof {
            let pre = m.tris@.subrange(0, i as int);
            let post = m.tris@.subrange(0, i as int + 1);
            assert(post.drop_last() =~= pre);
            assert(post.last() == m.tris@[i as int]);
            lemma_mesh_max_abs_nonneg(pre);
        }
        best = fxmax(best, ts);
        i = i + 1;
    }
    proof {
        assert(m.tris@.subrange(0, n as int) =~= m.tris@);
    }
    best
}

/// Rescale a mesh into the unit cube, derive planar texture coordinates, and
/// flatten it into draw order.
///
/// The output is exactly `normalize_spec`: three consecutive vertices per
/// source triangle, in source order, every position component within
/// `[-FX_ONE, FX_ONE]` and every texture component within `[0, FX_ONE]`.
pub fn normalize(m: &Mesh) -> (out: NormalizedModel)
    requires
        m.wf(),
    ensures
        out.verts@ == normalize_spec(m.tris@),
        out.verts@.len() == 3 * m.tris@.len(),
        forall|k: int| 0 <= k < out.verts@.len() ==> in_unit_cube(#[trigger] out.verts@[k]),
{
    let s = compute_scale(m);
    let n = m.tris.len();
    let mut verts: Vec<Vertex> = Vec::new();
    let mut i: usize = 0;
    proof {
        lemma_mesh_max_abs_nonneg(m.tris@);
    }
    while i < n
        invariant
            m.wf(),
            n == m.tris@.len(),
            0 <= i <= n,
            s == mesh_scale(m.tris@),
            FX_ONE <= s <= FX_COORD_MAX,
            verts@.len() == 3 * i,
            forall|k: int| 0 <= k < verts@.len()
                ==> #[trigger] verts@[k] == norm_vertex(m.tris@[k / 3], k % 3, s as int),
            forall|k: int| 0 <= k < verts@.len() ==> in_unit_cube(#[trigger] verts@[k]),
        decreases n - i,
    {
        let t = &m.tris[i];
        proof {
            assert(tri_wf(m.tris@[i as int]));
            lemma_tri_le_mesh_max_abs(m.tris@, i as int);
        }
        let va = norm_one_vertex(t, 0, s);
        let vb = norm_one_vertex(t, 1, s);
        let vc = norm_one_vertex(t, 2, s);
        verts.push(va);
        verts.push(vb);
        verts.push(vc);
        proof {
            let i = i as int;
            vstd::arithmetic::div_mod::lemma_fundamental_div_mod_converse_div(3 * i, 3, i, 0);
            vstd::arithmetic::div_mod::lemma_fundamental_div_mod_converse_mod(3 * i, 3, i, 0);
            vstd::arithmetic::div_mod::lemma_fundamental_div_mod_converse_div(3 * i + 1, 3, i, 1);
            vstd::arithmetic::div_mod::lemma_fundamental_div_mod_converse_mod(3 * i + 1, 3, i, 1);
            vstd::arithmetic::div_mod::lemma_fundamental_div_mod_converse_div(3 * i + 2, 3, i, 2);
            vstd::arithmetic::div_mod::lemma_fundamental_div_mod_converse_mod(3 * i + 2, 3, i, 2);
        }
        i = i + 1;
    }
    proof {
        assert(verts@ =~= normalize_spec(m.tris@)) by {
            assert forall|k: int| 0 <= k < verts@.len()
                implies verts@[k] == normalize_spec(m.tris@)[k] by {
                vstd::arithmetic::div_mod::lemma_div_pos_is_pos(k, 3);
                vstd::arithmetic::div_mod::lemma_div_is_ordered(k, verts@.len() - 1, 3);
            }
        }
    }
    NormalizedModel { verts }
}

/// Every position component within one unit of the origin, every texture
/// component within `[0, FX_ONE]`.
pub open spec fn in_unit_cube(v: Vertex) -> bool {
    &&& -FX_ONE <= v.pos.x <= FX_ONE
    &&& -FX_ONE <= v.pos.y <= FX_ONE
    &&& -FX_ONE <= v.pos.z <= FX_ONE
    &&& 0 <= v.tex.u <= FX_ONE
    &&& 0 <= v.tex.v <= FX_ONE
}

/// Decomposition of a flat vertex index: entry `k` belongs to corner `k % 3`
/// of triangle `k / 3`.
pub proof fn lemma_flat_index(k: int, n: int)
    requires
        0 <= k < 3 * n,
    ensures
        0 <= k / 3 < n,
        0 <= k % 3 < 3,
        k == 3 * (k / 3) + k % 3,
{
    vstd::arithmetic::div_mod::lemma_fundamental_div_mod(k, 3);
    vstd::arithmetic::div_mod::lemma_mod_bound(k, 3);
    vstd::arithmetic::div_mod::lemma_div_pos_is_pos(k, 3);
    vstd::arithmetic::div_mod::lemma_div_is_ordered(k, 3 * n - 1, 3);
    vstd::arithmetic::div_mod::lemma_fundamental_div_mod_converse_div(3 * n - 1, 3, n - 1, 2);
}

/// A vertex normalized under a scale that dominates its triangle lands in the
/// unit cube, with texture coordinates in `[0, FX_ONE]`.
pub proof fn lemma_norm_vertex_unit(t: Triangle, j: int, m: int)
    requires
        0 <= j < 3,
        FX_ONE <= m,
        tri_max_abs(t) <= m,
    ensures
        in_unit_cube(norm_vertex(t, j, m)),
{
    let p = t.corner(j);
    lemma_fx_div_unit_bound(p.x as int, m);
    lemma_fx_div_unit_bound(p.y as int, m);
    lemma_fx_div_unit_bound(p.z as int, m);
    lemma_tex_coord_unit(norm_coord(p.x as int, m));
    lemma_tex_coord_unit(norm_coord(p.y as int, m));
}

/// The planar projection maps `[-FX_ONE, FX_ONE]` into `[0, FX_ONE]`.
pub proof fn lemma_tex_coord_unit(nc: int)
    requires
        -FX_ONE <= nc <= FX_ONE,
    ensures
        0 <= tex_coord(nc) <= FX_ONE,
{
    vstd::arithmetic::div_mod::lemma_div_pos_is_pos(nc + FX_ONE, 2);
    vstd::arithmetic::div_mod::lemma_div_is_ordered(nc + FX_ONE, 2 * FX_ONE, 2);
    vstd::arithmetic::div_mod::lemma_fundamental_div_mod_converse_div(
        2 * FX_ONE, 2, FX_ONE as int, 0);
}

/// Every entry of the normalized output lies in the unit cube: position
/// components within `[-FX_ONE, FX_ONE]`, texture within `[0, FX_ONE]`.
pub proof fn lemma_normalize_bounds(tris: Seq<Triangle>)
    requires
        mesh_wf(tris),
    ensures
        forall|k: int| 0 <= k < normalize_spec(tris).len()
            ==> in_unit_cube(#[trigger] normalize_spec(tris)[k]),
{
    lemma_mesh_max_abs_nonneg(tris);
    assert forall|k: int| 0 <= k < normalize_spec(tris).len()
        implies in_unit_cube(#[trigger] normalize_spec(tris)[k]) by {
        lemma_flat_index(k, tris.len() as int);
        lemma_tri_le_mesh_max_abs(tris, k / 3);
        lemma_norm_vertex_unit(tris[k / 3], k % 3, mesh_scale(tris));
    }
}

/// Order preservation: the three vertices of triangle `i` stand, in winding
/// order, at entries `3i`, `3i + 1` and `3i + 2` of the normalized output.
pub proof fn lemma_order_preserved(tris: Seq<Triangle>, i: int, j: int)
    requires
        0 <= i < tris.len(),
        0 <= j < 3,
    ensures
        normalize_spec(tris)[3 * i + j] == norm_vertex(tris[i], j, mesh_scale(tris)),
        normalize_spec(tris)[3 * i + j].pos == norm_vec3(tris[i].corner(j), mesh_scale(tris)),
        normalize_spec(tris)[3 * i + j].normal == tris[i].normal,
{
    vstd::arithmetic::div_mod::lemma_fundamental_div_mod_converse_div(3 * i + j, 3, i, j);
    vstd::arithmetic::div_mod::lemma_fundamental_div_mod_converse_mod(3 * i + j, 3, i, j);
    assert(3 * i + j < 3 * tris.len()) by (nonlinear_arith)
        requires
            0 <= i < tris.len(),
            0 <= j < 3;
}

/// If every triangle's components stay within `b`, so does the mesh maximum.
pub proof fn lemma_mesh_max_abs_le(tris: Seq<Triangle>, b: int)
    requires
        0 <= b,
        forall|i: int| 0 <= i < tris.len() ==> tri_max_abs(#[trigger] tris[i]) <= b,
    ensures
        mesh_max_abs(tris) <= b,
    decreases tris.len(),
{
    if tris.len() > 0 {
        assert(forall|i: int| 0 <= i < tris.drop_last().len()
            ==> tri_max_abs(#[trigger] tris.drop_last()[i]) <= b);
        lemma_mesh_max_abs_le(tris.drop_last(), b);
        assert(tris.last() == tris[tris.len() - 1]);
    }
}

/// Regroup a flat draw list back into triangles: each group of three
/// consecutive vertices gives the corners, and its first vertex the normal.
pub open spec fn mesh_of(model: Seq<Vertex>) -> Seq<Triangle> {
    Seq::new(
        (model.len() / 3) as nat,
        |i: int| Triangle {
            normal: model[3 * i].normal,
            a: model[3 * i].pos,
            b: model[3 * i + 1].pos,
            c: model[3 * i + 2].pos,
        },
    )
}

/// Normalizing is idempotent under rescale: an already-normalized model has
/// scale exactly one unit, so running it through normalization again
/// reproduces it entry for entry.
pub proof fn lemma_normalize_idempotent(tris: Seq<Triangle>)
    requires
        mesh_wf(tris),
    ensures
        normalize_spec(mesh_of(normalize_spec(tris))) == normalize_spec(tris),
{
    let out = normalize_spec(tris);
    let back = mesh_of(out);
    let n = tris.len() as int;
    let s = mesh_scale(tris);
    vstd::arithmetic::div_mod::lemma_fundamental_div_mod_converse_div(3 * n, 3, n, 0);
    assert(back.len() == n);
    lemma_normalize_bounds(tris);
    lemma_mesh_max_abs_nonneg(tris);
    assert forall|i: int| 0 <= i < n implies tri_max_abs(#[trigger] back[i]) <= FX_ONE by {
        lemma_flat_index(3 * i, n);
        assert(in_unit_cube(out[3 * i]));
        assert(in_unit_cube(out[3 * i + 1]));
        assert(in_unit_cube(out[3 * i + 2]));
    }
    lemma_mesh_max_abs_le(back, FX_ONE as int);
    assert(mesh_scale(back) == FX_ONE);
    assert forall|k: int| 0 <= k < 3 * n
        implies normalize_spec(back)[k] == out[k] by {
        lemma_flat_index(k, n);
        let i = k / 3;
        let j = k % 3;
        vstd::arithmetic::div_mod::lemma_fundamental_div_mod_converse_div(3 * i, 3, i, 0);
        vstd::arithmetic::div_mod::lemma_fundamental_div_mod_converse_mod(3 * i, 3, i, 0);
        vstd::arithmetic::div_mod::lemma_fundamental_div_mod_converse_div(3 * i + 1, 3, i, 1);
        vstd::arithmetic::div_mod::lemma_fundamental_div_mod_converse_mod(3 * i + 1, 3, i, 1);
        vstd::arithmetic::div_mod::lemma_fundamental_div_mod_converse_div(3 * i + 2, 3, i, 2);
        vstd::arithmetic::div_mod::lemma_fundamental_div_mod_converse_mod(3 * i + 2, 3, i, 2);
        let t = tris[i];
        let orig = t.corner(j);
        lemma_tri_le_mesh_max_abs(tris, i);
        lemma_fx_div_unit_bound(orig.x as int, s);
        lemma_fx_div_unit_bound(orig.y as int, s);
        lemma_fx_div_unit_bound(orig.z as int, s);
        let p = back[i].corner(j);
        assert(p == out[k].pos);
        assert(p.x as int == norm_coord(orig.x as int, s));
        assert(p.y as int == norm_coord(orig.y as int, s));
        assert(p.z as int == norm_coord(orig.z as int, s));
        lemma_fx_div_by_one(p.x as int);
        lemma_fx_div_by_one(p.y as int);
        lemma_fx_div_by_one(p.z as int);
        assert(back[i].normal == out[3 * i].normal);
        assert(out[3 * i].normal == t.normal);
    }
    assert(normalize_spec(back) =~= out);
}

/// Normalize one corner of one triangle under an established scale.
fn norm_one_vertex(t: &Triangle, j: usize, s: i64) -> (v: Vertex)
    requires
        tri_wf(*t),
        j < 3,
        FX_ONE <= s <= FX_COORD_MAX,
        tri_max_abs(*t) <= s,
    ensures
        v == norm_vertex(*t, j as int, s as int),
        in_unit_cube(v),
{
    let p = if j == 0 {
        t.a
    } else if j == 1 {
        t.b
    } else {
        t.c
    };
    proof {
        assert(p == t.corner(j as int));
        lemma_fx_div_unit_bound(p.x as int, s as int);
        lemma_fx_div_unit_bound(p.y as int, s as int);
        lemma_fx_div_unit_bound(p.z as int, s as int);
    }
    let nx = fxdiv(p.x, s);
    let ny = fxdiv(p.y, s);
    let nz = fxdiv(p.z, s);
    let tu = (nx + FX_ONE) / 2;
    let tv = (ny + FX_ONE) / 2;
    Vertex {
        pos: Vec3 { x: nx, y: ny, z: nz },
        tex: Tex2 { u: tu, v: tv },
        normal: t.normal,
    }
}

} // verus!
