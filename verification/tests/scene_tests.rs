use meshview::fixed::{FX_HALF, FX_ONE};
use meshview::scene::{
    build_scene, perspective, Color, RotationSamples, SceneState, COT_HALF_FOV, MARKER_SCALE,
};

fn ticks(v: i64) -> f64 {
    v as f64 / FX_ONE as f64
}

fn state_at_rest() -> SceneState {
    SceneState {
        tx: 0,
        ty: 0,
        tz: 0,
        rx_deg: 0,
        ry_deg: 0,
        scale: FX_ONE,
        is_draw: true,
        is_light: true,
        is_texture: false,
        intensity: FX_ONE,
        ambient: FX_HALF,
        diffuse: FX_ONE,
        specular: 52429,
        back_color: Color { r: 0, g: 0, b: 0, a: FX_ONE },
        model_color: Color { r: FX_ONE, g: FX_ONE, b: FX_ONE, a: FX_ONE },
    }
}

fn rest_samples() -> RotationSamples {
    RotationSamples { cos_rx: FX_ONE, sin_rx: 0, cos_ry: FX_ONE, sin_ry: 0 }
}

#[test]
fn rest_pose_model_matrix_is_the_view_matrix() {
    let f = build_scene(&state_at_rest(), &rest_samples(), 1600, 900);
    let m = f.model_matrix;
    // The view: identity rotation, eye two units along Z.
    assert_eq!((m.m00, m.m01, m.m02, m.m03), (FX_ONE, 0, 0, 0));
    assert_eq!((m.m10, m.m11, m.m12, m.m13), (0, FX_ONE, 0, 0));
    assert_eq!((m.m20, m.m21, m.m22, m.m23), (0, 0, FX_ONE, 0));
    assert_eq!((m.m30, m.m31, m.m32, m.m33), (0, 0, -2 * FX_ONE, FX_ONE));
}

#[test]
fn projection_matches_the_closed_form() {
    // 45-degree vertical field of view, 16:9 viewport, near 0.1, far 100.
    let p = perspective(1600, 900);
    let tan_half = (45.0f64.to_radians() / 2.0).tan();
    let aspect = 1600.0f64 / 900.0;
    let near = 0.1f64;
    let far = 100.0f64;
    let tol = 1e-3;
    assert!((ticks(p.m00) - 1.0 / (aspect * tan_half)).abs() < tol);
    assert!((ticks(p.m11) - 1.0 / tan_half).abs() < tol);
    assert!((ticks(p.m22) - (-(far + near) / (far - near))).abs() < tol);
    assert!((ticks(p.m32) - (-(2.0 * far * near) / (far - near))).abs() < tol);
    assert_eq!(p.m23, -FX_ONE);
    assert_eq!(p.m33, 0);
    assert_eq!((p.m01, p.m02, p.m03), (0, 0, 0));
    assert_eq!((p.m10, p.m12, p.m13), (0, 0, 0));
    assert_eq!((p.m20, p.m21), (0, 0));
    assert_eq!((p.m30, p.m31), (0, 0));
    // And through the frame builder.
    let f = build_scene(&state_at_rest(), &rest_samples(), 1600, 900);
    assert_eq!(f.projection, p);
}

#[test]
fn pitch_rotation_lands_in_the_model_matrix() {
    // Pitch a quarter turn: cosine 0, sine 1. The view's linear part becomes
    // the X rotation; the translation column is untouched.
    let samples = RotationSamples { cos_rx: 0, sin_rx: FX_ONE, cos_ry: FX_ONE, sin_ry: 0 };
    let f = build_scene(&state_at_rest(), &samples, 800, 600);
    let m = f.model_matrix;
    assert_eq!((m.m00, m.m01, m.m02), (FX_ONE, 0, 0));
    assert_eq!((m.m10, m.m11, m.m12), (0, 0, FX_ONE));
    assert_eq!((m.m20, m.m21, m.m22), (0, -FX_ONE, 0));
    assert_eq!((m.m30, m.m31, m.m32, m.m33), (0, 0, -2 * FX_ONE, FX_ONE));
}

#[test]
fn yaw_rotation_lands_in_the_model_matrix() {
    // Yaw a quarter turn: cosine 0, sine 1.
    let samples = RotationSamples { cos_rx: FX_ONE, sin_rx: 0, cos_ry: 0, sin_ry: FX_ONE };
    let f = build_scene(&state_at_rest(), &samples, 800, 600);
    let m = f.model_matrix;
    assert_eq!((m.m00, m.m01, m.m02), (0, 0, -FX_ONE));
    assert_eq!((m.m10, m.m11, m.m12), (0, FX_ONE, 0));
    assert_eq!((m.m20, m.m21, m.m22), (FX_ONE, 0, 0));
    assert_eq!((m.m30, m.m31, m.m32, m.m33), (0, 0, -2 * FX_ONE, FX_ONE));
}

#[test]
fn uniform_scale_shrinks_the_basis_columns() {
    let mut st = state_at_rest();
    st.scale = FX_HALF;
    let f = build_scene(&st, &rest_samples(), 800, 600);
    let m = f.model_matrix;
    assert_eq!((m.m00, m.m11, m.m22), (FX_HALF, FX_HALF, FX_HALF));
    // The homogeneous and translation entries keep their size.
    assert_eq!((m.m30, m.m31, m.m32, m.m33), (0, 0, -2 * FX_ONE, FX_ONE));
}

#[test]
fn light_marker_sits_at_the_offset_light_position() {
    let mut st = state_at_rest();
    st.tx = 3 * FX_ONE;
    st.ty = -FX_ONE;
    st.tz = 2 * FX_ONE;
    let f = build_scene(&st, &rest_samples(), 1600, 900);
    let m = f.light_matrix;
    // Shrunk basis.
    assert_eq!((m.m00, m.m11, m.m22), (MARKER_SCALE, MARKER_SCALE, MARKER_SCALE));
    // Translated to (tx - 1/2, ty + 1/2, tz) in front of the camera.
    assert_eq!(m.m30, 3 * FX_ONE - FX_HALF);
    assert_eq!(m.m31, -FX_ONE + FX_HALF);
    assert_eq!(m.m32, 2 * FX_ONE - 2 * FX_ONE);
    assert_eq!(m.m33, FX_ONE);
    // The lighting uniform agrees, with the light in the Z = 0 plane.
    assert_eq!(f.lighting.light_position.x, 3 * FX_ONE - FX_HALF);
    assert_eq!(f.lighting.light_position.y, -FX_ONE + FX_HALF);
    assert_eq!(f.lighting.light_position.z, 0);
}

#[test]
fn lighting_scalars_broadcast_and_toggles_pass_through() {
    let st = state_at_rest();
    let f = build_scene(&st, &rest_samples(), 1600, 900);
    let l = &f.lighting;
    assert_eq!((l.light_intensity.x, l.light_intensity.y, l.light_intensity.z),
        (FX_ONE, FX_ONE, FX_ONE));
    assert_eq!((l.material_ka.x, l.material_ka.y, l.material_ka.z),
        (FX_HALF, FX_HALF, FX_HALF));
    assert_eq!((l.material_kd.x, l.material_kd.y, l.material_kd.z),
        (FX_ONE, FX_ONE, FX_ONE));
    assert_eq!(l.material_ks, 52429);
    assert!(l.is_light);
    assert!(!l.is_texture);
    assert_eq!(l.model_color, st.model_color);
    assert_eq!(f.background, st.back_color);
    assert!(f.is_draw);
}
