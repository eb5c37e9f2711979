//! The per-frame scene transform: a pure function from interactive state and
//! viewport size to the camera, model and light-marker matrices and the
//! lighting uniforms.
//!
//! Matrices are column-major fixed-point. The camera is fixed: eye two units
//! up the Z axis looking at the origin with Y up, which makes the view matrix
//! the constant translation by minus two along Z. The model matrix composes
//! the view with a pitch rotation, a yaw rotation and a uniform scale; the
//! light-marker matrix is the view translated to the light and shrunk to
//! marker size. Rotations enter as cosine and sine samples of the pitch and
//! yaw angles: sampling the trigonometric functions is the caller's business,
//! everything after the samples is exact.

use vstd::prelude::*;
use crate::fixed::{fx_div, fx_mul, fxdiv, fxmul, FX_HALF, FX_ONE};
use crate::fixed::{lemma_fx_mul_one, lemma_fx_mul_zero, lemma_trunc_div_bounded};
use crate::mesh::Vec3;

verus! {

/// Cotangent of half the vertical field of view (45 degrees), in ticks.
pub const COT_HALF_FOV: i64 = 158218;

/// Near clip plane distance, a tenth of a unit, in ticks.
pub const NEAR_Z: i64 = 6554;

/// Far clip plane distance, one hundred units, in ticks.
pub const FAR_Z: i64 = 6553600;

/// Uniform shrink applied to the light marker: a quarter.
pub const MARKER_SCALE: i64 = 16384;

/// Ceiling on a matrix entry fed into a product chain.
pub const MAT_ENTRY_MAX: i64 = 0x8000_0000;

/// Ceiling on the uniform model scale factor.
pub const SCALE_MAX: i64 = 0x4000_0000;

/// Ceiling on a translation component.
pub const TRANSLATE_MAX: i64 = 0x1000_0000_0000;

/// A 4x4 fixed-point matrix, column-major: `mJI` is column `J`, row `I`, the
/// layout a renderer's uniform array expects.
#[derive(Clone, Copy, PartialEq, Eq, Structural, Debug)]
pub struct Mat4 {
    pub m00: i64, pub m01: i64, pub m02: i64, pub m03: i64,
    pub m10: i64, pub m11: i64, pub m12: i64, pub m13: i64,
    pub m20: i64, pub m21: i64, pub m22: i64, pub m23: i64,
    pub m30: i64, pub m31: i64, pub m32: i64, pub m33: i64,
}

/// An RGBA color with fixed-point channels in `[0, FX_ONE]`.
#[derive(Clone, Copy, PartialEq, Eq, Structural, Debug)]
pub struct Color {
    pub r: i64,
    pub g: i64,
    pub b: i64,
    pub a: i64,
}

/// Everything the interactive layer may adjust between frames.
#[derive(Clone, Copy, PartialEq, Eq, Structural, Debug)]
pub struct SceneState {
    pub tx: i64,
    pub ty: i64,
    pub tz: i64,
    pub rx_deg: i64,
    pub ry_deg: i64,
    pub scale: i64,
    pub is_draw: bool,
    pub is_light: bool,
    pub is_texture: bool,
    pub intensity: i64,
    pub ambient: i64,
    pub diffuse: i64,
    pub specular: i64,
    pub back_color: Color,
    pub model_color: Color,
}

/// Cosine and sine samples of the pitch (`rx`) and yaw (`ry`) angles.
#[derive(Clone, Copy, PartialEq, Eq, Structural, Debug)]
pub struct RotationSamples {
    pub cos_rx: i64,
    pub sin_rx: i64,
    pub cos_ry: i64,
    pub sin_ry: i64,
}

/// The named uniforms a renderer consumes unmodified.
#[derive(Clone, Copy, PartialEq, Eq, Structural, Debug)]
pub struct LightingUniforms {
    pub light_position: Vec3,
    pub light_intensity: Vec3,
    pub material_ka: Vec3,
    pub material_kd: Vec3,
    pub material_ks: i64,
    pub is_light: bool,
    pub is_texture: bool,
    pub model_color: Color,
}

/// One frame's worth of transforms and uniforms.
#[derive(Clone, Copy, PartialEq, Eq, Structural, Debug)]
pub struct SceneFrame {
    pub model_matrix: Mat4,
    pub light_matrix: Mat4,
    pub projection: Mat4,
    pub lighting: LightingUniforms,
    pub background: Color,
    pub is_draw: bool,
}

/// The fixed camera: identity rotation, eye two units along Z, so the view
/// is the constant translation by minus two along Z.
pub open spec fn view_matrix() -> Mat4 {
    Mat4 {
        m00: FX_ONE, m01: 0, m02: 0, m03: 0,
        m10: 0, m11: FX_ONE, m12: 0, m13: 0,
        m20: 0, m21: 0, m22: FX_ONE, m23: 0,
        m30: 0, m31: 0, m32: (-2 * FX_ONE) as i64, m33: FX_ONE,
    }
}

/// Rotation about the X axis with cosine `c` and sine `s`.
pub open spec fn rot_x_mat(c: int, s: int) -> Mat4 {
    Mat4 {
        m00: FX_ONE, m01: 0, m02: 0, m03: 0,
        m10: 0, m11: c as i64, m12: s as i64, m13: 0,
        m20: 0, m21: (-s) as i64, m22: c as i64, m23: 0,
        m30: 0, m31: 0, m32: 0, m33: FX_ONE,
    }
}

/// Rotation about the Y axis with cosine `c` and sine `s`.
pub open spec fn rot_y_mat(c: int, s: int) -> Mat4 {
    Mat4 {
        m00: c as i64, m01: 0, m02: (-s) as i64, m03: 0,
        m10: 0, m11: FX_ONE, m12: 0, m13: 0,
        m20: s as i64, m21: 0, m22: c as i64, m23: 0,
        m30: 0, m31: 0, m32: 0, m33: FX_ONE,
    }
}

/// Uniform scale by `k` (homogeneous row untouched).
pub open spec fn scale_mat(k: int) -> Mat4 {
    Mat4 {
        m00: k as i64, m01: 0, m02: 0, m03: 0,
        m10: 0, m11: k as i64, m12: 0, m13: 0,
        m20: 0, m21: 0, m22: k as i64, m23: 0,
        m30: 0, m31: 0, m32: 0, m33: FX_ONE,
    }
}

/// The fixed-point matrix product `a * b`.
pub open spec fn mat_mul_spec(a: Mat4, b: Mat4) -> Mat4 {
    Mat4 {
        m00: (fx_mul(a.m00 as int, b.m00 as int) + fx_mul(a.m10 as int, b.m01 as int)
            + fx_mul(a.m20 as int, b.m02 as int) + fx_mul(a.m30 as int, b.m03 as int)) as i64,
        m01: (fx_mul(a.m01 as int, b.m00 as int) + fx_mul(a.m11 as int, b.m01 as int)
            + fx_mul(a.m21 as int, b.m02 as int) + fx_mul(a.m31 as int, b.m03 as int)) as i64,
        m02: (fx_mul(a.m02 as int, b.m00 as int) + fx_mul(a.m12 as int, b.m01 as int)
            + fx_mul(a.m22 as int, b.m02 as int) + fx_mul(a.m32 as int, b.m03 as int)) as i64,
        m03: (fx_mul(a.m03 as int, b.m00 as int) + fx_mul(a.m13 as int, b.m01 as int)
            + fx_mul(a.m23 as int, b.m02 as int) + fx_mul(a.m33 as int, b.m03 as int)) as i64,
        m10: (fx_mul(a.m00 as int, b.m10 as int) + fx_mul(a.m10 as int, b.m11 as int)
            + fx_mul(a.m20 as int, b.m12 as int) + fx_mul(a.m30 as int, b.m13 as int)) as i64,
        m11: (fx_mul(a.m01 as int, b.m10 as int) + fx_mul(a.m11 as int, b.m11 as int)
            + fx_mul(a.m21 as int, b.m12 as int) + fx_mul(a.m31 as int, b.m13 as int)) as i64,
        m12: (fx_mul(a.m02 as int, b.m10 as int) + fx_mul(a.m12 as int, b.m11 as int)
            + fx_mul(a.m22 as int, b.m12 as int) + fx_mul(a.m32 as int, b.m13 as int)) as i64,
        m13: (fx_mul(a.m03 as int, b.m10 as int) + fx_mul(a.m13 as int, b.m11 as int)
            + fx_mul(a.m23 as int, b.m12 as int) + fx_mul(a.m33 as int, b.m13 as int)) as i64,
        m20: (fx_mul(a.m00 as int, b.m20 as int) + fx_mul(a.m10 as int, b.m21 as int)
            + fx_mul(a.m20 as int, b.m22 as int) + fx_mul(a.m30 as int, b.m23 as int)) as i64,
        m21: (fx_mul(a.m01 as int, b.m20 as int) + fx_mul(a.m11 as int, b.m21 as int)
            + fx_mul(a.m21 as int, b.m22 as int) + fx_mul(a.m31 as int, b.m23 as int)) as i64,
        m22: (fx_mul(a.m02 as int, b.m20 as int) + fx_mul(a.m12 as int, b.m21 as int)
            + fx_mul(a.m22 as int, b.m22 as int) + fx_mul(a.m32 as int, b.m23 as int)) as i64,
        m23: (fx_mul(a.m03 as int, b.m20 as int) + fx_mul(a.m13 as int, b.m21 as int)
            + fx_mul(a.m23 as int, b.m22 as int) + fx_mul(a.m33 as int, b.m23 as int)) as i64,
        m30: (fx_mul(a.m00 as int, b.m30 as int) + fx_mul(a.m10 as int, b.m31 as int)
            + fx_mul(a.m20 as int, b.m32 as int) + fx_mul(a.m30 as int, b.m33 as int)) as i64,
        m31: (fx_mul(a.m01 as int, b.m30 as int) + fx_mul(a.m11 as int, b.m31 as int)
            + fx_mul(a.m21 as int, b.m32 as int) + fx_mul(a.m31 as int, b.m33 as int)) as i64,
        m32: (fx_mul(a.m02 as int, b.m30 as int) + fx_mul(a.m12 as int, b.m31 as int)
            + fx_mul(a.m22 as int, b.m32 as int) + fx_mul(a.m32 as int, b.m33 as int)) as i64,
        m33: (fx_mul(a.m03 as int, b.m30 as int) + fx_mul(a.m13 as int, b.m31 as int)
            + fx_mul(a.m23 as int, b.m32 as int) + fx_mul(a.m33 as int, b.m33 as int)) as i64,
    }
}

/// `a` with its last column moved to the point `a * (vx, vy, vz, 1)`.
pub open spec fn translate_spec(a: Mat4, vx: int, vy: int, vz: int) -> Mat4 {
    Mat4 {
        m30: (fx_mul(a.m00 as int, vx) + fx_mul(a.m10 as int, vy) + fx_mul(a.m20 as int, vz)
            + a.m30) as i64,
        m31: (fx_mul(a.m01 as int, vx) + fx_mul(a.m11 as int, vy) + fx_mul(a.m21 as int, vz)
            + a.m31) as i64,
        m32: (fx_mul(a.m02 as int, vx) + fx_mul(a.m12 as int, vy) + fx_mul(a.m22 as int, vz)
            + a.m32) as i64,
        m33: (fx_mul(a.m03 as int, vx) + fx_mul(a.m13 as int, vy) + fx_mul(a.m23 as int, vz)
            + a.m33) as i64,
        ..a
    }
}

/// `a` with its three basis columns shrunk by `k` (the translation column
/// untouched).
pub open spec fn scale_cols_spec(a: Mat4, k: int) -> Mat4 {
    Mat4 {
        m00: fx_mul(a.m00 as int, k) as i64,
        m01: fx_mul(a.m01 as int, k) as i64,
        m02: fx_mul(a.m02 as int, k) as i64,
        m03: fx_mul(a.m03 as int, k) as i64,
        m10: fx_mul(a.m10 as int, k) as i64,
        m11: fx_mul(a.m11 as int, k) as i64,
        m12: fx_mul(a.m12 as int, k) as i64,
        m13: fx_mul(a.m13 as int, k) as i64,
        m20: fx_mul(a.m20 as int, k) as i64,
        m21: fx_mul(a.m21 as int, k) as i64,
        m22: fx_mul(a.m22 as int, k) as i64,
        m23: fx_mul(a.m23 as int, k) as i64,
        ..a
    }
}

/// The model matrix: view, then pitch about X, then yaw about Y, then the
/// uniform scale.
pub open spec fn model_matrix_spec(c1: int, s1: int, c2: int, s2: int, k: int) -> Mat4 {
    mat_mul_spec(
        mat_mul_spec(mat_mul_spec(view_matrix(), rot_x_mat(c1, s1)), rot_y_mat(c2, s2)),
        scale_mat(k),
    )
}

/// The light-marker matrix: view translated to the light's offset position,
/// then shrunk to marker size.
pub open spec fn light_matrix_spec(tx: int, ty: int, tz: int) -> Mat4 {
    scale_cols_spec(
        translate_spec(view_matrix(), tx - FX_HALF, ty + FX_HALF, tz),
        MARKER_SCALE as int,
    )
}

/// The viewport's width-to-height ratio in ticks.
pub open spec fn aspect_fx(w: int, h: int) -> int {
    (w * FX_ONE) / h
}

/// The perspective projection for a 45-degree vertical field of view, near
/// plane `NEAR_Z`, far plane `FAR_Z` and the viewport's aspect ratio.
pub open spec fn perspective_matrix(w: int, h: int) -> Mat4 {
    Mat4 {
        m00: fx_div(COT_HALF_FOV as int, aspect_fx(w, h)) as i64,
        m01: 0, m02: 0, m03: 0,
        m10: 0, m11: COT_HALF_FOV, m12: 0, m13: 0,
        m20: 0, m21: 0,
        m22: (-fx_div((FAR_Z + NEAR_Z) as int, (FAR_Z - NEAR_Z) as int)) as i64,
        m23: (-FX_ONE) as i64,
        m30: 0, m31: 0,
        m32: (-fx_div(2 * fx_mul(NEAR_Z as int, FAR_Z as int), (FAR_Z - NEAR_Z) as int)) as i64,
        m33: 0,
    }
}

/// Every entry within the product-chain ceiling.
pub open spec fn mat_bounded(a: Mat4, l: int) -> bool {
    &&& -l <= a.m00 <= l && -l <= a.m01 <= l && -l <= a.m02 <= l && -l <= a.m03 <= l
    &&& -l <= a.m10 <= l && -l <= a.m11 <= l && -l <= a.m12 <= l && -l <= a.m13 <= l
    &&& -l <= a.m20 <= l && -l <= a.m21 <= l && -l <= a.m22 <= l && -l <= a.m23 <= l
    &&& -l <= a.m30 <= l && -l <= a.m31 <= l && -l <= a.m32 <= l && -l <= a.m33 <= l
}

/// Fixed-point dot product of one row of `a` with one column of `b`.
fn dot4(a0: i64, a1: i64, a2: i64, a3: i64, b0: i64, b1: i64, b2: i64, b3: i64) -> (r: i64)
    requires
        -MAT_ENTRY_MAX <= a0 <= MAT_ENTRY_MAX,
        -MAT_ENTRY_MAX <= a1 <= MAT_ENTRY_MAX,
        -MAT_ENTRY_MAX <= a2 <= MAT_ENTRY_MAX,
        -MAT_ENTRY_MAX <= a3 <= MAT_ENTRY_MAX,
        -MAT_ENTRY_MAX <= b0 <= MAT_ENTRY_MAX,
        -MAT_ENTRY_MAX <= b1 <= MAT_ENTRY_MAX,
        -MAT_ENTRY_MAX <= b2 <= MAT_ENTRY_MAX,
        -MAT_ENTRY_MAX <= b3 <= MAT_ENTRY_MAX,
    ensures
        r == fx_mul(a0 as int, b0 as int) + fx_mul(a1 as int, b1 as int)
            + fx_mul(a2 as int, b2 as int) + fx_mul(a3 as int, b3 as int),
{
    proof {
        assert(-0x4000_0000_0000_0000 <= a0 as int * b0 as int <= 0x4000_0000_0000_0000)
            by (nonlinear_arith)
            requires
                -MAT_ENTRY_MAX <= a0 <= MAT_ENTRY_MAX,
                -MAT_ENTRY_MAX <= b0 <= MAT_ENTRY_MAX;
        assert(-0x4000_0000_0000_0000 <= a1 as int * b1 as int <= 0x4000_0000_0000_0000)
            by (nonlinear_arith)
            requires
                -MAT_ENTRY_MAX <= a1 <= MAT_ENTRY_MAX,
                -MAT_ENTRY_MAX <= b1 <= MAT_ENTRY_MAX;
        assert(-0x4000_0000_0000_0000 <= a2 as int * b2 as int <= 0x4000_0000_0000_0000)
            by (nonlinear_arith)
            requires
                -MAT_ENTRY_MAX <= a2 <= MAT_ENTRY_MAX,
                -MAT_ENTRY_MAX <= b2 <= MAT_ENTRY_MAX;
        assert(-0x4000_0000_0000_0000 <= a3 as int * b3 as int <= 0x4000_0000_0000_0000)
            by (nonlinear_arith)
            requires
                -MAT_ENTRY_MAX <= a3 <= MAT_ENTRY_MAX,
                -MAT_ENTRY_MAX <= b3 <= MAT_ENTRY_MAX;
        lemma_trunc_div_bounded(a0 as int * b0 as int, 0x4000_0000_0000_0000, FX_ONE as int);
        lemma_trunc_div_bounded(a1 as int * b1 as int, 0x4000_0000_0000_0000, FX_ONE as int);
        lemma_trunc_div_bounded(a2 as int * b2 as int, 0x4000_0000_0000_0000, FX_ONE as int);
        lemma_trunc_div_bounded(a3 as int * b3 as int, 0x4000_0000_0000_0000, FX_ONE as int);
    }
    fxmul(a0, b0) + fxmul(a1, b1) + fxmul(a2, b2) + fxmul(a3, b3)
}

/// The fixed-point matrix product, entry for entry as `mat_mul_spec`.
fn mat_mul(a: &Mat4, b: &Mat4) -> (r: Mat4)
    requires
        mat_bounded(*a, MAT_ENTRY_MAX as int),
        mat_bounded(*b, MAT_ENTRY_MAX as int),
    ensures
        r == mat_mul_spec(*a, *b),
{
    Mat4 {
        m00: dot4(a.m00, a.m10, a.m20, a.m30, b.m00, b.m01, b.m02, b.m03),
        m01: dot4(a.m01, a.m11, a.m21, a.m31, b.m00, b.m01, b.m02, b.m03),
        m02: dot4(a.m02, a.m12, a.m22, a.m32, b.m00, b.m01, b.m02, b.m03),
        m03: dot4(a.m03, a.m13, a.m23, a.m33, b.m00, b.m01, b.m02, b.m03),
        m10: dot4(a.m00, a.m10, a.m20, a.m30, b.m10, b.m11, b.m12, b.m13),
        m11: dot4(a.m01, a.m11, a.m21, a.m31, b.m10, b.m11, b.m12, b.m13),
        m12: dot4(a.m02, a.m12, a.m22, a.m32, b.m10, b.m11, b.m12, b.m13),
        m13: dot4(a.m03, a.m13, a.m23, a.m33, b.m10, b.m11, b.m12, b.m13),
        m20: dot4(a.m00, a.m10, a.m20, a.m30, b.m20, b.m21, b.m22, b.m23),
        m21: dot4(a.m01, a.m11, a.m21, a.m31, b.m20, b.m21, b.m22, b.m23),
        m22: dot4(a.m02, a.m12, a.m22, a.m32, b.m20, b.m21, b.m22, b.m23),
        m23: dot4(a.m03, a.m13, a.m23, a.m33, b.m20, b.m21, b.m22, b.m23),
        m30: dot4(a.m00, a.m10, a.m20, a.m30, b.m30, b.m31, b.m32, b.m33),
        m31: dot4(a.m01, a.m11, a.m21, a.m31, b.m30, b.m31, b.m32, b.m33),
        m32: dot4(a.m02, a.m12, a.m22, a.m32, b.m30, b.m31, b.m32, b.m33),
        m33: dot4(a.m03, a.m13, a.m23, a.m33, b.m30, b.m31, b.m32, b.m33),
    }
}

/// The constant view matrix.
pub fn make_view() -> (v: Mat4)
    ensures
        v == view_matrix(),
{
    Mat4 {
        m00: FX_ONE, m01: 0, m02: 0, m03: 0,
        m10: 0, m11: FX_ONE, m12: 0, m13: 0,
        m20: 0, m21: 0, m22: FX_ONE, m23: 0,
        m30: 0, m31: 0, m32: -2 * FX_ONE, m33: FX_ONE,
    }
}

/// Bound every entry of the product of two bounded matrices.
proof fn lemma_mm_bounded(a: Mat4, b: Mat4, la: int, lb: int)
    requires
        0 <= la,
        0 <= lb,
        la * lb <= 0x4000_0000_0000_0000,
        mat_bounded(a, la),
        mat_bounded(b, lb),
    ensures
        mat_bounded(mat_mul_spec(a, b), 4 * ((la * lb) / (FX_ONE as int))),
{
    let m = la * lb;
    assert forall|x: int, y: int|
        (-la <= x <= la && -lb <= y <= lb) implies -m <= #[trigger] (x * y) <= m by {
        assert(-m <= x * y <= m) by (nonlinear_arith)
            requires
                -la <= x <= la,
                -lb <= y <= lb,
                0 <= la,
                0 <= lb,
                m == la * lb;
    }
    assert forall|x: int, y: int|
        (-la <= x <= la && -lb <= y <= lb) implies -(m / (FX_ONE as int)) <= #[trigger] fx_mul(
        x,
        y,
    ) <= m / (FX_ONE as int) by {
        lemma_trunc_div_bounded(x * y, m, FX_ONE as int);
    }
}

/// Pitch rotation matrix from its samples.
fn make_rot_x(c: i64, s: i64) -> (r: Mat4)
    requires
        -FX_ONE <= c <= FX_ONE,
        -FX_ONE <= s <= FX_ONE,
    ensures
        r == rot_x_mat(c as int, s as int),
        mat_bounded(r, FX_ONE as int),
{
    Mat4 {
        m00: FX_ONE, m01: 0, m02: 0, m03: 0,
        m10: 0, m11: c, m12: s, m13: 0,
        m20: 0, m21: -s, m22: c, m23: 0,
        m30: 0, m31: 0, m32: 0, m33: FX_ONE,
    }
}

/// Yaw rotation matrix from its samples.
fn make_rot_y(c: i64, s: i64) -> (r: Mat4)
    requires
        -FX_ONE <= c <= FX_ONE,
        -FX_ONE <= s <= FX_ONE,
    ensures
        r == rot_y_mat(c as int, s as int),
        mat_bounded(r, FX_ONE as int),
{
    Mat4 {
        m00: c, m01: 0, m02: -s, m03: 0,
        m10: 0, m11: FX_ONE, m12: 0, m13: 0,
        m20: s, m21: 0, m22: c, m23: 0,
        m30: 0, m31: 0, m32: 0, m33: FX_ONE,
    }
}

/// Uniform scale matrix.
fn make_scale(k: i64) -> (r: Mat4)
    requires
        0 <= k <= SCALE_MAX,
    ensures
        r == scale_mat(k as int),
        mat_bounded(r, SCALE_MAX as int),
{
    Mat4 {
        m00: k, m01: 0, m02: 0, m03: 0,
        m10: 0, m11: k, m12: 0, m13: 0,
        m20: 0, m21: 0, m22: k, m23: 0,
        m30: 0, m31: 0, m32: 0, m33: FX_ONE,
    }
}

/// One row of a translation column: dot the row with the offset and add the
/// row's old translation entry.
fn tdot(a0: i64, a1: i64, a2: i64, add: i64, vx: i64, vy: i64, vz: i64) -> (r: i64)
    requires
        -0x2_0000 <= a0 <= 0x2_0000,
        -0x2_0000 <= a1 <= 0x2_0000,
        -0x2_0000 <= a2 <= 0x2_0000,
        -0x2_0000 <= add <= 0x2_0000,
        -0x2000_0000_0000 <= vx <= 0x2000_0000_0000,
        -0x2000_0000_0000 <= vy <= 0x2000_0000_0000,
        -0x2000_0000_0000 <= vz <= 0x2000_0000_0000,
    ensures
        r == fx_mul(a0 as int, vx as int) + fx_mul(a1 as int, vy as int)
            + fx_mul(a2 as int, vz as int) + add,
{
    proof {
        assert(-0x4000_0000_0000_0000 <= a0 as int * vx as int <= 0x4000_0000_0000_0000)
            by (nonlinear_arith)
            requires
                -0x2_0000 <= a0 <= 0x2_0000,
                -0x2000_0000_0000 <= vx <= 0x2000_0000_0000;
        assert(-0x4000_0000_0000_0000 <= a1 as int * vy as int <= 0x4000_0000_0000_0000)
            by (nonlinear_arith)
            requires
                -0x2_0000 <= a1 <= 0x2_0000,
                -0x2000_0000_0000 <= vy <= 0x2000_0000_0000;
        assert(-0x4000_0000_0000_0000 <= a2 as int * vz as int <= 0x4000_0000_0000_0000)
            by (nonlinear_arith)
            requires
                -0x2_0000 <= a2 <= 0x2_0000,
                -0x2000_0000_0000 <= vz <= 0x2000_0000_0000;
        lemma_trunc_div_bounded(a0 as int * vx as int, 0x4000_0000_0000_0000, FX_ONE as int);
        lemma_trunc_div_bounded(a1 as int * vy as int, 0x4000_0000_0000_0000, FX_ONE as int);
        lemma_trunc_div_bounded(a2 as int * vz as int, 0x4000_0000_0000_0000, FX_ONE as int);
    }
    fxmul(a0, vx) + fxmul(a1, vy) + fxmul(a2, vz) + add
}

/// Move the translation column of `a` to `a * (vx, vy, vz, 1)`.
fn translate_mat(a: &Mat4, vx: i64, vy: i64, vz: i64) -> (r: Mat4)
    requires
        mat_bounded(*a, 0x2_0000),
        -0x2000_0000_0000 <= vx <= 0x2000_0000_0000,
        -0x2000_0000_0000 <= vy <= 0x2000_0000_0000,
        -0x2000_0000_0000 <= vz <= 0x2000_0000_0000,
    ensures
        r == translate_spec(*a, vx as int, vy as int, vz as int),
{
    Mat4 {
        m30: tdot(a.m00, a.m10, a.m20, a.m30, vx, vy, vz),
        m31: tdot(a.m01, a.m11, a.m21, a.m31, vx, vy, vz),
        m32: tdot(a.m02, a.m12, a.m22, a.m32, vx, vy, vz),
        m33: tdot(a.m03, a.m13, a.m23, a.m33, vx, vy, vz),
        ..*a
    }
}

/// Fixed-point product of one small entry with a unit-bounded factor.
fn fxmul_small(a: i64, k: i64) -> (r: i64)
    requires
        -0x2_0000 <= a <= 0x2_0000,
        0 <= k <= FX_ONE,
    ensures
        r == fx_mul(a as int, k as int),
{
    proof {
        assert(-0x4000_0000_0000_0000 <= a as int * k as int <= 0x4000_0000_0000_0000)
            by (nonlinear_arith)
            requires
                -0x2_0000 <= a <= 0x2_0000,
                0 <= k <= FX_ONE;
    }
    fxmul(a, k)
}

/// Shrink the three basis columns of `a` by `k`.
fn scale_cols(a: &Mat4, k: i64) -> (r: Mat4)
    requires
        -0x2_0000 <= a.m00 <= 0x2_0000,
        -0x2_0000 <= a.m01 <= 0x2_0000,
        -0x2_0000 <= a.m02 <= 0x2_0000,
        -0x2_0000 <= a.m03 <= 0x2_0000,
        -0x2_0000 <= a.m10 <= 0x2_0000,
        -0x2_0000 <= a.m11 <= 0x2_0000,
        -0x2_0000 <= a.m12 <= 0x2_0000,
        -0x2_0000 <= a.m13 <= 0x2_0000,
        -0x2_0000 <= a.m20 <= 0x2_0000,
        -0x2_0000 <= a.m21 <= 0x2_0000,
        -0x2_0000 <= a.m22 <= 0x2_0000,
        -0x2_0000 <= a.m23 <= 0x2_0000,
        0 <= k <= FX_ONE,
    ensures
        r == scale_cols_spec(*a, k as int),
{
    Mat4 {
        m00: fxmul_small(a.m00, k),
        m01: fxmul_small(a.m01, k),
        m02: fxmul_small(a.m02, k),
        m03: fxmul_small(a.m03, k),
        m10: fxmul_small(a.m10, k),
        m11: fxmul_small(a.m11, k),
        m12: fxmul_small(a.m12, k),
        m13: fxmul_small(a.m13, k),
        m20: fxmul_small(a.m20, k),
        m21: fxmul_small(a.m21, k),
        m22: fxmul_small(a.m22, k),
        m23: fxmul_small(a.m23, k),
        ..*a
    }
}

/// The projection for the viewport, with a 45-degree vertical field of view.
pub fn perspective(width: u32, height: u32) -> (p: Mat4)
    requires
        1 <= width,
        1 <= height,
        height <= 0x1_0000 * width,
    ensures
        p == perspective_matrix(width as int, height as int),
{
    let a: i64 = ((width as i64) * FX_ONE) / (height as i64);
    proof {
        vstd::arithmetic::div_mod::lemma_div_is_ordered(
            height as int, width as int * FX_ONE as int, height as int);
        vstd::arithmetic::div_mod::lemma_div_by_self(height as int);
    }
    let m00 = fxdiv(COT_HALF_FOV, a);
    let zz = fxdiv(FAR_Z + NEAR_Z, FAR_Z - NEAR_Z);
    let nf = fxmul(NEAR_Z, FAR_Z);
    let zw = fxdiv(2 * nf, FAR_Z - NEAR_Z);
    Mat4 {
        m00: m00, m01: 0, m02: 0, m03: 0,
        m10: 0, m11: COT_HALF_FOV, m12: 0, m13: 0,
        m20: 0, m21: 0, m22: -zz, m23: -FX_ONE,
        m30: 0, m31: 0, m32: -zw, m33: 0,
    }
}

/// Build one frame's transforms and uniforms from the interactive state, the
/// rotation samples and the viewport size.
///
/// The model matrix is the fixed view composed with the pitch and yaw
/// rotations and the uniform scale; the light marker is the view translated
/// to the light's offset position and shrunk to marker size; the projection
/// uses the viewport's aspect ratio; the lighting scalars broadcast into
/// triples, the toggles and colors pass through, and the light stands at
/// `(tx - 1/2, ty + 1/2, 0)`.
pub fn build_scene(state: &SceneState, rot: &RotationSamples, width: u32, height: u32) -> (f:
    SceneFrame)
    requires
        -FX_ONE <= rot.cos_rx <= FX_ONE,
        -FX_ONE <= rot.sin_rx <= FX_ONE,
        -FX_ONE <= rot.cos_ry <= FX_ONE,
        -FX_ONE <= rot.sin_ry <= FX_ONE,
        0 <= state.scale <= SCALE_MAX,
        -TRANSLATE_MAX <= state.tx <= TRANSLATE_MAX,
        -TRANSLATE_MAX <= state.ty <= TRANSLATE_MAX,
        -TRANSLATE_MAX <= state.tz <= TRANSLATE_MAX,
        1 <= width,
        1 <= height,
        height <= 0x1_0000 * width,
    ensures
        f.model_matrix == model_matrix_spec(
            rot.cos_rx as int,
            rot.sin_rx as int,
            rot.cos_ry as int,
            rot.sin_ry as int,
            state.scale as int,
        ),
        f.light_matrix == light_matrix_spec(state.tx as int, state.ty as int, state.tz as int),
        f.projection == perspective_matrix(width as int, height as int),
        f.lighting.light_position.x == state.tx - FX_HALF,
        f.lighting.light_position.y == state.ty + FX_HALF,
        f.lighting.light_position.z == 0,
        f.lighting.light_intensity == (Vec3 {
            x: state.intensity,
            y: state.intensity,
            z: state.intensity,
        }),
        f.lighting.material_ka == (Vec3 { x: state.ambient, y: state.ambient, z: state.ambient }),
        f.lighting.material_kd == (Vec3 { x: state.diffuse, y: state.diffuse, z: state.diffuse }),
        f.lighting.material_ks == state.specular,
        f.lighting.is_light == state.is_light,
        f.lighting.is_texture == state.is_texture,
        f.lighting.model_color == state.model_color,
        f.background == state.back_color,
        f.is_draw == state.is_draw,
{
    let view = make_view();
    let rx = make_rot_x(rot.cos_rx, rot.sin_rx);
    let ry = make_rot_y(rot.cos_ry, rot.sin_ry);
    let sc = make_scale(state.scale);
    proof {
        lemma_mm_bounded(view, rx, 0x2_0000, FX_ONE as int);
    }
    let m1 = mat_mul(&view, &rx);
    proof {
        lemma_mm_bounded(m1, ry, 0x8_0000, FX_ONE as int);
    }
    let m2 = mat_mul(&m1, &ry);
    proof {
        lemma_mm_bounded(m2, sc, 0x20_0000, SCALE_MAX as int);
    }
    let model = mat_mul(&m2, &sc);
    let tm = translate_mat(&view, state.tx - FX_HALF, state.ty + FX_HALF, state.tz);
    let light = scale_cols(&tm, MARKER_SCALE);
    let projection = perspective(width, height);
    SceneFrame {
        model_matrix: model,
        light_matrix: light,
        projection,
        lighting: LightingUniforms {
            light_position: Vec3 { x: state.tx - FX_HALF, y: state.ty + FX_HALF, z: 0 },
            light_intensity: Vec3 {
                x: state.intensity,
                y: state.intensity,
                z: state.intensity,
            },
            material_ka: Vec3 { x: state.ambient, y: state.ambient, z: state.ambient },
            material_kd: Vec3 { x: state.diffuse, y: state.diffuse, z: state.diffuse },
            material_ks: state.specular,
            is_light: state.is_light,
            is_texture: state.is_texture,
            model_color: state.model_color,
        },
        background: state.back_color,
        is_draw: state.is_draw,
    }
}

/// At rest — zero pitch and yaw (cosine one, sine zero) and unit scale —
/// the model matrix is exactly the view matrix, unmodified.
pub proof fn lemma_rest_model_is_view()
    ensures
        model_matrix_spec(FX_ONE as int, 0, FX_ONE as int, 0, FX_ONE as int) == view_matrix(),
{
    assert forall|x: int| #[trigger] fx_mul(x, FX_ONE as int) == x by {
        lemma_fx_mul_one(x);
    }
    assert forall|x: int| #[trigger] fx_mul(FX_ONE as int, x) == x by {
        lemma_fx_mul_one(x);
    }
    assert forall|x: int| #[trigger] fx_mul(x, 0) == 0 by {
        lemma_fx_mul_zero(x);
    }
    assert forall|x: int| #[trigger] fx_mul(0, x) == 0 by {
        lemma_fx_mul_zero(x);
    }
    assert(mat_mul_spec(view_matrix(), rot_x_mat(FX_ONE as int, 0)) == view_matrix());
    assert(mat_mul_spec(view_matrix(), rot_y_mat(FX_ONE as int, 0)) == view_matrix());
    assert(mat_mul_spec(view_matrix(), scale_mat(FX_ONE as int)) == view_matrix());
}

} // verus!
