use meshview::fixed::{FX_COORD_MAX, FX_ONE};
use meshview::make_model;
use meshview::stl::{fixed_from_bits, parse_stl, LoadError};

fn push_f32(out: &mut Vec<u8>, value: f32) {
    out.extend_from_slice(&value.to_bits().to_le_bytes());
}

fn push_record(out: &mut Vec<u8>, normal: [f32; 3], a: [f32; 3], b: [f32; 3], c: [f32; 3]) {
    for v in normal.iter().chain(a.iter()).chain(b.iter()).chain(c.iter()) {
        push_f32(out, *v);
    }
    out.extend_from_slice(&[0u8, 0u8]);
}

fn packed_file(records: &[([f32; 3], [f32; 3], [f32; 3], [f32; 3])]) -> Vec<u8> {
    let mut out = vec![0u8; 80];
    out.extend_from_slice(&(records.len() as u32).to_le_bytes());
    for r in records {
        push_record(&mut out, r.0, r.1, r.2, r.3);
    }
    out
}

#[test]
fn decode_exact_single_precision_values() {
    assert_eq!(fixed_from_bits(0.0f32.to_bits()), 0);
    assert_eq!(fixed_from_bits((-0.0f32).to_bits()), 0);
    assert_eq!(fixed_from_bits(1.0f32.to_bits()), FX_ONE);
    assert_eq!(fixed_from_bits((-1.0f32).to_bits()), -FX_ONE);
    assert_eq!(fixed_from_bits(0.5f32.to_bits()), FX_ONE / 2);
    assert_eq!(fixed_from_bits(0.25f32.to_bits()), FX_ONE / 4);
    assert_eq!(fixed_from_bits(1.5f32.to_bits()), FX_ONE + FX_ONE / 2);
    assert_eq!(fixed_from_bits(100.0f32.to_bits()), 100 * FX_ONE);
    assert_eq!(fixed_from_bits((-3.5f32).to_bits()), -(3 * FX_ONE + FX_ONE / 2));
    // A large power of two decodes exactly.
    assert_eq!(fixed_from_bits(1048576.0f32.to_bits()), 1048576 * FX_ONE);
    // Values below one tick truncate to zero.
    assert_eq!(fixed_from_bits(0.000001f32.to_bits()), 0);
    assert_eq!(fixed_from_bits(f32::MIN_POSITIVE.to_bits()), 0);
    // A fraction rounds toward zero: 0.1 in ticks is 6553.6.
    assert_eq!(fixed_from_bits(0.1f32.to_bits()), 6553);
    assert_eq!(fixed_from_bits((-0.1f32).to_bits()), -6553);
}

#[test]
fn decode_saturates_at_the_coordinate_ceiling() {
    assert_eq!(fixed_from_bits(f32::INFINITY.to_bits()), FX_COORD_MAX);
    assert_eq!(fixed_from_bits(f32::NEG_INFINITY.to_bits()), -FX_COORD_MAX);
    assert_eq!(fixed_from_bits(f32::NAN.to_bits()), FX_COORD_MAX);
    // 2^31 units no longer fits the ceiling of 2^30 units.
    assert_eq!(fixed_from_bits(2147483648.0f32.to_bits()), FX_COORD_MAX);
    assert_eq!(fixed_from_bits((-2147483648.0f32).to_bits()), -FX_COORD_MAX);
    assert_eq!(fixed_from_bits(f32::MAX.to_bits()), FX_COORD_MAX);
}

#[test]
fn parse_reads_declared_triangles_in_order() {
    let bytes = packed_file(&[
        ([0.0, 0.0, 1.0], [1.0, 2.0, -3.5], [0.5, 0.0, 0.0], [0.0, 1.0, 0.0]),
        ([1.0, 0.0, 0.0], [4.0, 0.0, 0.0], [0.0, 5.0, 0.0], [0.0, 0.0, 6.0]),
    ]);
    let mesh = parse_stl(&bytes).unwrap();
    assert_eq!(mesh.tris.len(), 2);
    let t0 = &mesh.tris[0];
    assert_eq!((t0.normal.x, t0.normal.y, t0.normal.z), (0, 0, FX_ONE));
    assert_eq!((t0.a.x, t0.a.y, t0.a.z), (FX_ONE, 2 * FX_ONE, -(3 * FX_ONE + FX_ONE / 2)));
    assert_eq!((t0.b.x, t0.b.y, t0.b.z), (FX_ONE / 2, 0, 0));
    assert_eq!((t0.c.x, t0.c.y, t0.c.z), (0, FX_ONE, 0));
    let t1 = &mesh.tris[1];
    assert_eq!(t1.a.x, 4 * FX_ONE);
    assert_eq!(t1.b.y, 5 * FX_ONE);
    assert_eq!(t1.c.z, 6 * FX_ONE);
}

#[test]
fn short_header_is_malformed() {
    assert!(matches!(parse_stl(&vec![0u8; 50]), Err(LoadError::MalformedHeader)));
    assert!(matches!(parse_stl(&Vec::new()), Err(LoadError::MalformedHeader)));
}

#[test]
fn missing_records_are_truncated_data() {
    let mut bytes = packed_file(&[(
        [0.0, 0.0, 1.0],
        [1.0, 0.0, 0.0],
        [0.0, 1.0, 0.0],
        [0.0, 0.0, 1.0],
    )]);
    // Declare two records but provide one.
    bytes[80] = 2;
    assert!(matches!(parse_stl(&bytes), Err(LoadError::TruncatedData)));
    // A record cut short is truncated too.
    let mut cut = packed_file(&[(
        [0.0, 0.0, 1.0],
        [1.0, 0.0, 0.0],
        [0.0, 1.0, 0.0],
        [0.0, 0.0, 1.0],
    )]);
    cut.pop();
    assert!(matches!(parse_stl(&cut), Err(LoadError::TruncatedData)));
}

#[test]
fn empty_mesh_parses() {
    let bytes = packed_file(&[]);
    let mesh = parse_stl(&bytes).unwrap();
    assert_eq!(mesh.tris.len(), 0);
}

#[test]
fn make_model_parses_and_normalizes() {
    // One triangle reaching out to 4 units on X: the scale is 4.
    let bytes = packed_file(&[(
        [0.0, 0.0, 1.0],
        [4.0, 0.0, 0.0],
        [0.0, 2.0, 0.0],
        [0.0, 0.0, -1.0],
    )]);
    let model = make_model(&bytes).unwrap();
    assert_eq!(model.verts.len(), 3);
    assert_eq!(model.verts[0].pos.x, FX_ONE);
    assert_eq!(model.verts[1].pos.y, FX_ONE / 2);
    assert_eq!(model.verts[2].pos.z, -FX_ONE / 4);
    assert_eq!(model.verts[0].normal.z, FX_ONE);
    // Texture coordinates: the planar projection of normalized X and Y.
    assert_eq!(model.verts[0].tex.u, FX_ONE);
    assert_eq!(model.verts[0].tex.v, FX_ONE / 2);
    // Errors pass through.
    assert!(matches!(make_model(&vec![1u8; 10]), Err(LoadError::MalformedHeader)));
}

#[test]
fn declared_count_is_little_endian() {
    let mut bytes = vec![7u8; 80];
    bytes.extend_from_slice(&[1, 1, 0, 0]);
    // Declares 257 records with none present.
    assert!(matches!(parse_stl(&bytes), Err(LoadError::TruncatedData)));
}
