//! Core of an interactive triangle-mesh viewer: mesh ingestion and
//! normalization, a generation-stamped model-reload coordinator, and the
//! per-frame scene transform builder.
//!
//! Geometry is carried in a signed fixed-point representation (scale
//! `fixed::FX_ONE`), so every quantity the contracts speak of is an exact
//! integer.

use vstd::prelude::*;

pub mod fixed;
pub mod mesh;
pub mod normalize;
pub mod reload;
pub mod scene;
pub mod stl;
pub mod stl_text;
pub mod texture;

use crate::mesh::{NormalizedModel, Triangle};
use crate::normalize::{normalize, normalize_spec};
use crate::stl::{parse_stl, stl_parse, LoadError};

verus! {

/// Load a triangulated-surface file from its raw bytes and normalize it
/// into the flat vertex list a renderer draws.
///
/// Succeeds exactly where parsing succeeds, and then returns the normalized
/// form of the triangles read; parse errors pass through unchanged.
pub fn make_model(bytes: &Vec<u8>) -> (r: Result<NormalizedModel, LoadError>)
    ensures
        match r {
            Ok(model) => stl_parse(bytes@) matches Ok(tris) && model.verts@ == normalize_spec(
                tris,
            ),
            Err(e) => stl_parse(bytes@) == Err::<Seq<Triangle>, LoadError>(e),
        },
{
    match parse_stl(bytes) {
        Ok(m) => Ok(normalize(&m)),
        Err(e) => Err(e),
    }
}

} // verus!
