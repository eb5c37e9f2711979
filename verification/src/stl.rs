//! Loading a triangulated-surface file.
//!
//! The packed binary layout is an 80-byte header, a 32-bit little-endian
//! triangle count, then one 50-byte record per triangle holding a face
//! normal and three corner positions (four bytes per component, IEEE 754
//! single precision, little endian) and a two-byte padding field; a file
//! shorter than its declared record list is rejected as truncated. An input
//! opening with the readable-text tag `solid` is read as the text variant
//! (see `stl_text`), with the packed reading as a fallback so that a packed
//! file whose header bytes spell the tag still loads. Parsing is total:
//! every input yields its mesh or exactly one error, as `stl_parse` states.

use vstd::prelude::*;
use vstd::arithmetic::power2::{
    lemma2_to64, lemma_pow2_pos, lemma_pow2_strictly_increases, lemma_pow2_unfold, pow2,
};
use vstd::arithmetic::mul::lemma_mul_upper_bound;
use crate::fixed::FX_COORD_MAX;
use crate::mesh::{coord_wf, tri_wf, Mesh, Triangle, Vec3};

verus! {

/// Why a mesh could not be loaded.
#[derive(Clone, Copy, PartialEq, Eq, Structural, Debug)]
pub enum LoadError {
    /// The path could not be read at all (reported by the caller that owns
    /// the file handle; parsing bytes never produces it).
    FileNotFound,
    /// The input opens with neither variant's layout: the packed header is
    /// cut short, the text tag or a token between text records is not
    /// recognized.
    MalformedHeader,
    /// Fewer complete triangle records are present than declared, or a text
    /// record breaks off or deviates from the facet grammar.
    TruncatedData,
}

/// The little-endian 32-bit word at offset `off`.
pub open spec fn word_at(s: Seq<u8>, off: int) -> int {
    s[off] + 0x100 * s[off + 1] + 0x1_0000 * s[off + 2] + 0x100_0000 * s[off + 3]
}

/// The fixed-point value of an IEEE 754 single-precision bit pattern `w`,
/// rounded toward zero, with magnitudes at or above the coordinate ceiling
/// (including the non-finite patterns) saturated to `FX_COORD_MAX`.
///
/// For biased exponent `e` and 23-bit fraction `man`, the encoded magnitude
/// is `(2^23 + man) * 2^(e - 150)`; in ticks of `1 / FX_ONE` that is
/// `(2^23 + man) * 2^(e - 134)`. Exponents of zero (the subnormals, all below
/// one tick) decode to zero.
pub open spec fn fixed_of_bits(w: int) -> int {
    let sign = w / 0x8000_0000;
    let e = (w / 0x80_0000) % 0x100;
    let man = w % 0x80_0000;
    let mag = if e == 0 {
        0
    } else if e >= 157 {
        FX_COORD_MAX as int
    } else if e >= 134 {
        (0x80_0000 + man) * pow2((e - 134) as nat)
    } else {
        (0x80_0000 + man) / pow2((134 - e) as nat) as int
    };
    if sign == 1 {
        -mag
    } else {
        mag
    }
}

/// The position or normal vector stored at offset `off`.
pub open spec fn vec3_at(s: Seq<u8>, off: int) -> Vec3 {
    Vec3 {
        x: fixed_of_bits(word_at(s, off)) as i64,
        y: fixed_of_bits(word_at(s, off + 4)) as i64,
        z: fixed_of_bits(word_at(s, off + 8)) as i64,
    }
}

/// The triangle record stored at offset `off`: face normal, then corners.
pub open spec fn tri_at(s: Seq<u8>, off: int) -> Triangle {
    Triangle {
        normal: vec3_at(s, off),
        a: vec3_at(s, off + 12),
        b: vec3_at(s, off + 24),
        c: vec3_at(s, off + 36),
    }
}

/// The input opens with the readable-text tag `solid`.
pub open spec fn is_text_tag(s: Seq<u8>) -> bool {
    s.len() >= 5 && s[0] == 0x73u8 && s[1] == 0x6fu8 && s[2] == 0x6cu8 && s[3] == 0x69u8
        && s[4] == 0x64u8
}

/// The triangle count the header declares.
pub open spec fn declared_count(s: Seq<u8>) -> int {
    word_at(s, 80)
}

/// The packed layout is complete: header, count and the whole declared
/// record list.
pub open spec fn packed_ok(s: Seq<u8>) -> bool {
    s.len() >= 84 && s.len() >= 84 + 50 * declared_count(s)
}

/// The mesh a well-formed input encodes: record `i` begins at byte
/// `84 + 50 * i`.
pub open spec fn tris_of(s: Seq<u8>) -> Seq<Triangle> {
    Seq::new(declared_count(s) as nat, |i: int| tri_at(s, 84 + 50 * i))
}

/// Two raised to `e`, for exponents small enough to fit an `i64`.
fn pow2_i64(e: u32) -> (r: i64)
    requires
        e <= 62,
    ensures
        r as int == pow2(e as nat),
        1 <= r,
{
    let mut i: u32 = 0;
    let mut acc: i64 = 1;
    proof {
        vstd::arithmetic::power2::lemma_pow2(0);
        vstd::arithmetic::power::lemma_pow0(2);
    }
    while i < e
        invariant
            i <= e <= 62,
            acc as int == pow2(i as nat),
            1 <= acc,
        decreases e - i,
    {
        proof {
            lemma_pow2_unfold((i + 1) as nat);
            lemma_pow2_strictly_increases(i as nat, 62);
            lemma2_to64();
            vstd::arithmetic::power2::lemma2_to64_rest();
        }
        acc = acc * 2;
        i = i + 1;
    }
    acc
}

/// Decode one little-endian single-precision word into a fixed-point
/// coordinate; saturating as `fixed_of_bits` describes, so the result always
/// satisfies the coordinate bound.
pub fn fixed_from_bits(w: u32) -> (c: i64)
    ensures
        c as int == fixed_of_bits(w as int),
        coord_wf(c as int),
{
    let sign: u32 = w / 0x8000_0000;
    let e: u32 = (w / 0x80_0000) % 0x100;
    let man: u32 = w % 0x80_0000;
    let num: i64 = 0x80_0000i64 + man as i64;
    let mag: i64 = if e == 0 {
        0
    } else if e >= 157 {
        FX_COORD_MAX
    } else if e >= 134 {
        let factor = pow2_i64(e - 134);
        proof {
            if e - 134 < 22 {
                lemma_pow2_strictly_increases((e - 134) as nat, 22);
            }
            lemma2_to64();
            lemma_mul_upper_bound(num as int, 0xFF_FFFF, factor as int, 0x40_0000);
        }
        num * factor
    } else {
        let shift: u32 = 134 - e;
        if shift >= 24 {
            proof {
                if 24 < shift {
                    lemma_pow2_strictly_increases(24, shift as nat);
                }
                lemma2_to64();
                lemma_pow2_pos(shift as nat);
                vstd::arithmetic::div_mod::lemma_basic_div(num as int, pow2(shift as nat) as int);
            }
            0
        } else {
            let d = pow2_i64(shift);
            proof {
                vstd::arithmetic::div_mod::lemma_div_pos_is_pos(num as int, d as int);
                vstd::arithmetic::div_mod::lemma_div_nonincreasing(num as int, d as int);
            }
            num / d
        }
    };
    if sign == 1 {
        -mag
    } else {
        mag
    }
}

/// The little-endian 32-bit word at offset `off` of the input.
fn read_word(bytes: &Vec<u8>, off: usize) -> (w: u32)
    requires
        off + 4 <= bytes@.len(),
    ensures
        w as int == word_at(bytes@, off as int),
{
    let _n = bytes.len();
    let b0 = bytes[off] as u32;
    let b1 = bytes[off + 1] as u32;
    let b2 = bytes[off + 2] as u32;
    let b3 = bytes[off + 3] as u32;
    b0 + 0x100 * b1 + 0x1_0000 * b2 + 0x100_0000 * b3
}

/// The vector stored at offset `off` of the input.
fn read_vec3(bytes: &Vec<u8>, off: usize) -> (v: Vec3)
    requires
        off + 12 <= bytes@.len(),
    ensures
        v == vec3_at(bytes@, off as int),
        coord_wf(v.x as int) && coord_wf(v.y as int) && coord_wf(v.z as int),
{
    let _n = bytes.len();
    let x = fixed_from_bits(read_word(bytes, off));
    let y = fixed_from_bits(read_word(bytes, off + 4));
    let z = fixed_from_bits(read_word(bytes, off + 8));
    Vec3 { x, y, z }
}

/// Whether the input opens with the readable-text tag.
fn has_text_tag(bytes: &Vec<u8>) -> (r: bool)
    ensures
        r == is_text_tag(bytes@),
{
    bytes.len() >= 5 && bytes[0] == 0x73u8 && bytes[1] == 0x6fu8 && bytes[2] == 0x6cu8
        && bytes[3] == 0x69u8 && bytes[4] == 0x64u8
}

/// What a mesh input parses to: the readable-text form when it opens with
/// the text tag — falling back to the packed reading where the text reading
/// fails but a complete packed layout is present, so a packed file whose
/// header bytes happen to spell the tag still loads — and the packed form
/// otherwise.
pub open spec fn stl_parse(s: Seq<u8>) -> Result<Seq<Triangle>, LoadError> {
    if is_text_tag(s) {
        match crate::stl_text::text_parse(s) {
            Ok(t) => Ok(t),
            Err(e) => if packed_ok(s) {
                Ok(tris_of(s))
            } else {
                Err(e)
            },
        }
    } else if s.len() < 84 {
        Err(LoadError::MalformedHeader)
    } else if !packed_ok(s) {
        Err(LoadError::TruncatedData)
    } else {
        Ok(tris_of(s))
    }
}

/// Parse a triangulated-surface file, packed or readable-text, exactly as
/// `stl_parse` reads it.
pub fn parse_stl(bytes: &Vec<u8>) -> (r: Result<Mesh, LoadError>)
    ensures
        match r {
            Ok(m) => stl_parse(bytes@) == Ok::<Seq<Triangle>, LoadError>(m.tris@) && m.wf(),
            Err(e) => stl_parse(bytes@) == Err::<Seq<Triangle>, LoadError>(e),
        },
{
    if has_text_tag(bytes) {
        match crate::stl_text::parse_text(bytes) {
            Ok(m) => Ok(m),
            Err(e) => match parse_packed(bytes) {
                Ok(m) => Ok(m),
                Err(_) => Err(e),
            },
        }
    } else {
        parse_packed(bytes)
    }
}

/// Parse the packed layout alone: the declared triangles in file order, or
/// `MalformedHeader` for a header cut short and `TruncatedData` for a
/// missing or cut-short record.
fn parse_packed(bytes: &Vec<u8>) -> (r: Result<Mesh, LoadError>)
    ensures
        match r {
            Ok(m) => {
                &&& packed_ok(bytes@)
                &&& m.tris@ == tris_of(bytes@)
                &&& m.wf()
            },
            Err(e) => {
                &&& !packed_ok(bytes@)
                &&& e == (if bytes@.len() < 84 {
                    LoadError::MalformedHeader
                } else {
                    LoadError::TruncatedData
                })
            },
        },
{
    let n = bytes.len();
    if n < 84 {
        return Err(LoadError::MalformedHeader);
    }
    let count_word = read_word(bytes, 80);
    let need: u64 = 84u64 + 50u64 * (count_word as u64);
    if (n as u64) < need {
        return Err(LoadError::TruncatedData);
    }
    let count = count_word as usize;
    let mut tris: Vec<Triangle> = Vec::new();
    let mut i: usize = 0;
    while i < count
        invariant
            n == bytes@.len(),
            count == declared_count(bytes@),
            84 + 50 * count <= n,
            0 <= i <= count,
            tris@.len() == i,
            forall|j: int| 0 <= j < i ==> #[trigger] tris@[j] == tri_at(bytes@, 84 + 50 * j),
            forall|j: int| 0 <= j < i ==> tri_wf(#[trigger] tris@[j]),
        decreases count - i,
    {
        let off = 84 + 50 * i;
        let normal = read_vec3(bytes, off);
        let a = read_vec3(bytes, off + 12);
        let b = read_vec3(bytes, off + 24);
        let c = read_vec3(bytes, off + 36);
        tris.push(Triangle { normal, a, b, c });
        i = i + 1;
    }
    proof {
        assert(tris@ =~= tris_of(bytes@));
    }
    Ok(Mesh { tris })
}

} // verus!
