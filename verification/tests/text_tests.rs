use meshview::fixed::{FX_COORD_MAX, FX_ONE};
use meshview::make_model;
use meshview::stl::{parse_stl, LoadError};

fn bytes_of(src: &str) -> Vec<u8> {
    src.as_bytes().to_vec()
}

#[test]
fn text_variant_parses_a_facet() {
    let src = "solid demo\n\
        facet normal 0 0 1\n\
        outer loop\n\
        vertex 1 2 -3.5\n\
        vertex 0.5 0 0\n\
        vertex 0 1e0 0\n\
        endloop\n\
        endfacet\n\
        endsolid demo\n";
    let mesh = parse_stl(&bytes_of(src)).unwrap();
    assert_eq!(mesh.tris.len(), 1);
    let t = &mesh.tris[0];
    assert_eq!((t.normal.x, t.normal.y, t.normal.z), (0, 0, FX_ONE));
    assert_eq!((t.a.x, t.a.y, t.a.z), (FX_ONE, 2 * FX_ONE, -(3 * FX_ONE + FX_ONE / 2)));
    assert_eq!((t.b.x, t.b.y, t.b.z), (FX_ONE / 2, 0, 0));
    assert_eq!((t.c.x, t.c.y, t.c.z), (0, FX_ONE, 0));
}

#[test]
fn text_variant_reads_exponents_and_signs() {
    let src = "solid s\n\
        facet normal 0.000000e+00 -0.000000e+00 1.000000e+00\n\
        outer loop\n\
        vertex 2.5e-1 -2.5E-1 +4e2\n\
        vertex 1e20 1e-30 12345678901234567\n\
        vertex .5 1. -0\n\
        endloop\n\
        endfacet\n\
        endsolid s\n";
    let mesh = parse_stl(&bytes_of(src)).unwrap();
    let t = &mesh.tris[0];
    assert_eq!((t.normal.x, t.normal.y, t.normal.z), (0, 0, FX_ONE));
    assert_eq!(t.a.x, FX_ONE / 4);
    assert_eq!(t.a.y, -FX_ONE / 4);
    assert_eq!(t.a.z, 400 * FX_ONE);
    // Beyond the coordinate ceiling the value saturates; far below one tick
    // it vanishes; seventeen integer digits saturate too.
    assert_eq!(t.b.x, FX_COORD_MAX);
    assert_eq!(t.b.y, 0);
    assert_eq!(t.b.z, FX_COORD_MAX);
    assert_eq!(t.c.x, FX_ONE / 2);
    assert_eq!(t.c.y, FX_ONE);
    assert_eq!(t.c.z, 0);
}

#[test]
fn text_variant_reads_several_facets_in_order() {
    let src = "solid two\n\
        facet normal 0 0 1 outer loop\n\
        vertex 1 0 0 vertex 2 0 0 vertex 3 0 0\n\
        endloop endfacet\n\
        facet normal 1 0 0 outer loop\n\
        vertex 4 0 0 vertex 5 0 0 vertex 6 0 0\n\
        endloop endfacet\n\
        endsolid two\n";
    let model = make_model(&bytes_of(src)).unwrap();
    assert_eq!(model.verts.len(), 6);
    // The largest coordinate is six units, so vertex i lands at i/6.
    let xs: Vec<i64> = model.verts.iter().map(|v| v.pos.x).collect();
    let expect: Vec<i64> = (1..=6).map(|i| i * FX_ONE / 6).collect();
    assert_eq!(xs, expect);
    assert_eq!(model.verts[0].normal.z, FX_ONE);
    assert_eq!(model.verts[3].normal.x, FX_ONE);
}

#[test]
fn text_record_breaking_off_is_truncated_data() {
    let src = "solid s\nfacet normal 0 0 1\nouter loop\nvertex 0 0 0\nvertex 1 0 0\n";
    assert!(matches!(parse_stl(&bytes_of(src)), Err(LoadError::TruncatedData)));
    // Ending right after the name is truncated too: no records, no endsolid.
    assert!(matches!(parse_stl(&bytes_of("solid s\n")), Err(LoadError::TruncatedData)));
}

#[test]
fn stray_token_between_records_is_a_malformed_header() {
    let src = "solid s\n\
        facet normal 0 0 1 outer loop\n\
        vertex 0 0 0 vertex 1 0 0 vertex 0 1 0\n\
        endloop endfacet\n\
        rubbish\n\
        endsolid s\n";
    assert!(matches!(parse_stl(&bytes_of(src)), Err(LoadError::MalformedHeader)));
    // A first token that merely begins with the tag is not the tag.
    assert!(matches!(parse_stl(&bytes_of("solidify")), Err(LoadError::MalformedHeader)));
}

#[test]
fn bad_number_in_a_record_is_truncated_data() {
    let src = "solid s\nfacet normal 0 0 banana\nouter loop\n\
        vertex 0 0 0 vertex 1 0 0 vertex 0 1 0\nendloop endfacet\nendsolid s\n";
    assert!(matches!(parse_stl(&bytes_of(src)), Err(LoadError::TruncatedData)));
}

#[test]
fn empty_text_solid_parses() {
    let mesh = parse_stl(&bytes_of("solid nothing here endsolid")).unwrap();
    assert_eq!(mesh.tris.len(), 0);
}

#[test]
fn packed_file_spelling_the_tag_still_loads() {
    // A packed file whose 80-byte header happens to begin with the text tag:
    // the text reading fails, the packed fallback reads it.
    let mut bytes = b"solid padding".to_vec();
    bytes.resize(80, 0u8);
    bytes.extend_from_slice(&1u32.to_le_bytes());
    for v in [0.0f32, 0.0, 1.0, 4.0, 0.0, 0.0, 0.0, 2.0, 0.0, 0.0, 0.0, -1.0] {
        bytes.extend_from_slice(&v.to_bits().to_le_bytes());
    }
    bytes.extend_from_slice(&[0u8, 0u8]);
    let mesh = parse_stl(&bytes).unwrap();
    assert_eq!(mesh.tris.len(), 1);
    assert_eq!(mesh.tris[0].a.x, 4 * FX_ONE);
    assert_eq!(mesh.tris[0].c.z, -FX_ONE);
}
