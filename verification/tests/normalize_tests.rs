use meshview::fixed::{FX_HALF, FX_ONE};
use meshview::mesh::{Mesh, Triangle, Vec3};
use meshview::normalize::{compute_scale, normalize};

fn v(x: i64, y: i64, z: i64) -> Vec3 {
    Vec3 { x, y, z }
}

fn tri(normal: Vec3, a: Vec3, b: Vec3, c: Vec3) -> Triangle {
    Triangle { normal, a, b, c }
}

#[test]
fn scale_is_floored_at_one_unit() {
    // All components well inside one unit: the divisor stays at one unit.
    let m = Mesh {
        tris: vec![tri(
            v(0, 0, FX_ONE),
            v(100, -200, 300),
            v(-FX_ONE, FX_ONE, 0),
            v(0, 0, 0),
        )],
    };
    assert_eq!(compute_scale(&m), FX_ONE);
}

#[test]
fn scale_is_largest_component_magnitude() {
    let m = Mesh {
        tris: vec![
            tri(v(0, 0, FX_ONE), v(3 * FX_ONE, 0, 0), v(0, -2 * FX_ONE, 0), v(0, 0, FX_ONE)),
            tri(v(0, 0, FX_ONE), v(0, 0, 0), v(FX_ONE / 2, 0, 0), v(0, FX_ONE, 0)),
        ],
    };
    assert_eq!(compute_scale(&m), 3 * FX_ONE);
}

#[test]
fn positions_land_in_unit_cube() {
    // The largest magnitude is 4 units on Y; everything divides by it.
    let m = Mesh {
        tris: vec![tri(
            v(0, 0, FX_ONE),
            v(3 * FX_ONE, -4 * FX_ONE, FX_ONE),
            v(-2 * FX_ONE, 2 * FX_ONE, -FX_ONE),
            v(FX_ONE, 0, 0),
        )],
    };
    let out = normalize(&m);
    assert_eq!(out.verts.len(), 3);
    for vert in &out.verts {
        assert!(-FX_ONE <= vert.pos.x && vert.pos.x <= FX_ONE);
        assert!(-FX_ONE <= vert.pos.y && vert.pos.y <= FX_ONE);
        assert!(-FX_ONE <= vert.pos.z && vert.pos.z <= FX_ONE);
        assert!(0 <= vert.tex.u && vert.tex.u <= FX_ONE);
        assert!(0 <= vert.tex.v && vert.tex.v <= FX_ONE);
    }
    // Exact values: 3/4, -1, 1/4 for the first corner.
    assert_eq!(out.verts[0].pos.x, 3 * FX_ONE / 4);
    assert_eq!(out.verts[0].pos.y, -FX_ONE);
    assert_eq!(out.verts[0].pos.z, FX_ONE / 4);
    assert_eq!(out.verts[0].tex.u, (3 * FX_ONE / 4 + FX_ONE) / 2);
    assert_eq!(out.verts[0].tex.v, 0);
    // Face normal passes through unscaled.
    assert_eq!(out.verts[0].normal, v(0, 0, FX_ONE));
}

#[test]
fn degenerate_mesh_is_left_unchanged() {
    // Every vertex at the origin: the scale floors at one and nothing moves.
    let m = Mesh {
        tris: vec![tri(v(0, 0, FX_ONE), v(0, 0, 0), v(0, 0, 0), v(0, 0, 0))],
    };
    assert_eq!(compute_scale(&m), FX_ONE);
    let out = normalize(&m);
    assert_eq!(out.verts.len(), 3);
    for vert in &out.verts {
        assert_eq!(vert.pos, v(0, 0, 0));
        assert_eq!(vert.tex.u, FX_HALF);
        assert_eq!(vert.tex.v, FX_HALF);
    }
}

#[test]
fn single_point_within_bounds_is_left_unchanged() {
    let p = v(1000, -500, 250);
    let m = Mesh {
        tris: vec![tri(v(FX_ONE, 0, 0), p, p, p)],
    };
    assert_eq!(compute_scale(&m), FX_ONE);
    let out = normalize(&m);
    for vert in &out.verts {
        assert_eq!(vert.pos, p);
    }
}

#[test]
fn triangle_and_winding_order_are_preserved() {
    let t0 = tri(v(0, 0, FX_ONE), v(1, 0, 0), v(2, 0, 0), v(3, 0, 0));
    let t1 = tri(v(FX_ONE, 0, 0), v(4, 0, 0), v(5, 0, 0), v(6, 0, 0));
    let m = Mesh { tris: vec![t0, t1] };
    // Scale floors at one, so positions carry through and expose the order.
    let out = normalize(&m);
    assert_eq!(out.verts.len(), 6);
    let xs: Vec<i64> = out.verts.iter().map(|vert| vert.pos.x).collect();
    assert_eq!(xs, vec![1, 2, 3, 4, 5, 6]);
    assert_eq!(out.verts[0].normal, v(0, 0, FX_ONE));
    assert_eq!(out.verts[3].normal, v(FX_ONE, 0, 0));
}

#[test]
fn renormalizing_a_normalized_model_changes_nothing() {
    // A mesh well outside the cube; normalize, regroup the flat list into
    // triangles, normalize again: identical output.
    let m = Mesh {
        tris: vec![
            tri(v(0, FX_ONE, 0), v(5 * FX_ONE, 0, -FX_ONE), v(0, 7 * FX_ONE, FX_ONE), v(-3 * FX_ONE, 0, 0)),
            tri(v(FX_ONE, 0, 0), v(123456, -654321, 777), v(1, 2, 3), v(-7, -8, -9)),
        ],
    };
    let out = normalize(&m);
    let mut regrouped = Vec::new();
    for chunk in out.verts.chunks(3) {
        regrouped.push(Triangle {
            normal: chunk[0].normal,
            a: chunk[0].pos,
            b: chunk[1].pos,
            c: chunk[2].pos,
        });
    }
    let again = normalize(&Mesh { tris: regrouped });
    assert_eq!(again.verts.len(), out.verts.len());
    for (x, y) in again.verts.iter().zip(out.verts.iter()) {
        assert_eq!(x, y);
    }
}
