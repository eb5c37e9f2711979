//! Loading the readable-text variant of a triangulated-surface file.
//!
//! The text form is a blank-separated token stream: `solid` and an optional
//! name, a run of facet records — `facet normal nx ny nz`, `outer loop`,
//! three `vertex x y z` lines, `endloop`, `endfacet` — and `endsolid`. Any
//! token run after `solid` up to the first `facet` or `endsolid` is the
//! name. Numbers carry a sign, integer digits, an optional fraction and an
//! optional exponent; thirteen significant digits are read (each further
//! integer digit is one more magnitude step, further fraction digits are
//! disregarded), the value is truncated toward zero and saturated at the
//! coordinate ceiling, exactly as `num_ticks` states.
//!
//! A record that deviates from the facet grammar or breaks off is reported
//! as `TruncatedData`; a token between records that is neither `facet` nor
//! `endsolid`, and a first token other than `solid`, as `MalformedHeader`.

use vstd::prelude::*;
use crate::fixed::FX_COORD_MAX;
use crate::mesh::{coord_wf, mesh_wf, tri_wf, Mesh, Triangle, Vec3};
use crate::stl::LoadError;

verus! {

/// A byte the readable form treats as blank.
pub open spec fn is_blank(b: u8) -> bool {
    b == 32u8 || b == 9u8 || b == 10u8 || b == 13u8
}

/// A decimal digit byte.
pub open spec fn is_digit(b: u8) -> bool {
    48 <= b <= 57
}

/// First position at or after `i` holding a non-blank byte; the length if
/// none is left.
pub open spec fn skip_blanks(s: Seq<u8>, i: int) -> int
    decreases s.len() - i,
{
    if i < 0 || i >= s.len() {
        s.len() as int
    } else if is_blank(s[i]) {
        skip_blanks(s, i + 1)
    } else {
        i
    }
}

/// First position at or after `i` holding a blank byte; the length if none
/// is left. For a token starting at `i` this is its end.
pub open spec fn token_end(s: Seq<u8>, i: int) -> int
    decreases s.len() - i,
{
    if i < 0 || i >= s.len() {
        s.len() as int
    } else if is_blank(s[i]) {
        i
    } else {
        token_end(s, i + 1)
    }
}

/// End of the digit run beginning at `i` of a token.
pub open spec fn digit_run(t: Seq<u8>, i: int) -> int
    decreases t.len() - i,
{
    if i < 0 || i >= t.len() {
        i
    } else if is_digit(t[i]) {
        digit_run(t, i + 1)
    } else {
        i
    }
}

pub broadcast proof fn lemma_skip_blanks_bounds(s: Seq<u8>, i: int)
    requires
        0 <= i <= s.len(),
    ensures
        i <= #[trigger] skip_blanks(s, i) <= s.len(),
        skip_blanks(s, i) < s.len() ==> !is_blank(s[skip_blanks(s, i)]),
    decreases s.len() - i,
{
    if i < s.len() && is_blank(s[i]) {
        lemma_skip_blanks_bounds(s, i + 1);
    }
}

pub broadcast proof fn lemma_token_end_bounds(s: Seq<u8>, i: int)
    requires
        0 <= i <= s.len(),
    ensures
        i <= #[trigger] token_end(s, i) <= s.len(),
    decreases s.len() - i,
{
    if i < s.len() && !is_blank(s[i]) {
        lemma_token_end_bounds(s, i + 1);
    }
}

/// Ten to the `n`.
pub open spec fn pow10(n: nat) -> int
    decreases n,
{
    if n <= 0 {
        1
    } else {
        10 * pow10((n - 1) as nat)
    }
}

pub broadcast proof fn lemma_pow10_pos(n: nat)
    ensures
        1 <= #[trigger] pow10(n),
    decreases n,
{
    if n > 0 {
        lemma_pow10_pos((n - 1) as nat);
    }
}

/// Fold the digit bytes of `t[i .. j)` into `acc`, keeping at most thirteen
/// significant digits in all; the result is the new accumulator and count.
pub open spec fn fold_mant(t: Seq<u8>, i: int, j: int, acc: int, kept: int) -> (int, int)
    decreases j - i,
{
    if i < 0 || i >= j {
        (acc, kept)
    } else if kept >= 13 {
        fold_mant(t, i + 1, j, acc, kept)
    } else {
        fold_mant(t, i + 1, j, acc * 10 + (t[i] - 48), kept + 1)
    }
}

/// Fold the digit bytes of `t[i .. j)` into an exponent, saturated at ten
/// thousand (beyond which the value saturates or vanishes regardless).
pub open spec fn fold_exp(t: Seq<u8>, i: int, j: int, acc: int) -> int
    decreases j - i,
{
    if i < 0 || i >= j {
        acc
    } else if acc * 10 + (t[i] - 48) > 10000 {
        fold_exp(t, i + 1, j, 10000)
    } else {
        fold_exp(t, i + 1, j, acc * 10 + (t[i] - 48))
    }
}

/// The saturated, truncated magnitude of `d` significant digits at decimal
/// point shift `eff`: `d * 10^eff` units in ticks. Fourteen or more upward
/// steps always reach the ceiling (one digit is then at least
/// `2^16 * 10^14` ticks, past the ceiling); eighteen or more downward steps
/// always vanish (thirteen digits scaled into ticks stay below `10^18`).
pub open spec fn mag_of(d: int, eff: int) -> int {
    if d == 0 {
        0
    } else if eff >= 14 {
        FX_COORD_MAX as int
    } else if eff <= -18 {
        0
    } else if eff >= 0 {
        let m = d * pow10(eff as nat) * 65536;
        if m > FX_COORD_MAX {
            FX_COORD_MAX as int
        } else {
            m
        }
    } else {
        let m = (d * 65536) / pow10((-eff) as nat);
        if m > FX_COORD_MAX {
            FX_COORD_MAX as int
        } else {
            m
        }
    }
}

/// The signed magnitude of a validated token shape: mantissa digits in
/// `[m0, ie)` and `[f0, fe)`, exponent value `e`.
pub open spec fn signed_mag(t: Seq<u8>, neg: bool, m0: int, ie: int, f0: int, fe: int, e: int) -> int {
    let (d1, k1) = fold_mant(t, m0, ie, 0, 0);
    let (d2, k2) = fold_mant(t, f0, fe, d1, k1);
    let sk0 = (ie - m0) - k1;
    let sk = if sk0 > 100 {
        100
    } else {
        sk0
    };
    let mag = mag_of(d2, e + sk - (k2 - k1));
    if neg {
        -mag
    } else {
        mag
    }
}

/// Fixed-point ticks encoded by a readable number token, or nothing when the
/// token is not a number: an optional sign, integer digits, an optional
/// point and fraction digits (at least one digit in the mantissa), and an
/// optional exponent `e`/`E` with its own optional sign and digits.
pub open spec fn num_ticks(t: Seq<u8>) -> Option<int> {
    let m0: int = if t.len() > 0 && (t[0] == 43u8 || t[0] == 45u8) {
        1
    } else {
        0
    };
    let neg = t.len() > 0 && t[0] == 45u8;
    let ie = digit_run(t, m0);
    let f0: int = if ie < t.len() && t[ie] == 46u8 {
        ie + 1
    } else {
        ie
    };
    let fe: int = if ie < t.len() && t[ie] == 46u8 {
        digit_run(t, ie + 1)
    } else {
        ie
    };
    if ie == m0 && fe == f0 {
        None
    } else if fe == t.len() {
        Some(signed_mag(t, neg, m0, ie, f0, fe, 0))
    } else if t[fe] == 101u8 || t[fe] == 69u8 {
        let e0 = fe + 1;
        let es: int = if e0 < t.len() && (t[e0] == 43u8 || t[e0] == 45u8) {
            e0 + 1
        } else {
            e0
        };
        let eneg = e0 < t.len() && t[e0] == 45u8;
        let ee = digit_run(t, es);
        if ee == t.len() && ee > es {
            let ev = fold_exp(t, es, ee, 0);
            Some(signed_mag(t, neg, m0, ie, f0, fe, if eneg { -ev } else { ev }))
        } else {
            None
        }
    } else {
        None
    }
}

/// The keywords of the readable form; `Other` covers everything else,
/// including an absent (empty) token at the end of input.
#[derive(Clone, Copy, PartialEq, Eq, Structural, Debug)]
pub enum Kw {
    Solid,
    Facet,
    Normal,
    Outer,
    Loop,
    Vertex,
    Endloop,
    Endfacet,
    Endsolid,
    Other,
}

/// Which keyword a token spells, byte for byte.
pub open spec fn kw_of(t: Seq<u8>) -> Kw {
    if t.len() == 5 && t[0] == 115u8 && t[1] == 111u8 && t[2] == 108u8 && t[3] == 105u8
        && t[4] == 100u8 {
        Kw::Solid
    } else if t.len() == 5 && t[0] == 102u8 && t[1] == 97u8 && t[2] == 99u8 && t[3] == 101u8
        && t[4] == 116u8 {
        Kw::Facet
    } else if t.len() == 6 && t[0] == 110u8 && t[1] == 111u8 && t[2] == 114u8 && t[3] == 109u8
        && t[4] == 97u8 && t[5] == 108u8 {
        Kw::Normal
    } else if t.len() == 5 && t[0] == 111u8 && t[1] == 117u8 && t[2] == 116u8 && t[3] == 101u8
        && t[4] == 114u8 {
        Kw::Outer
    } else if t.len() == 4 && t[0] == 108u8 && t[1] == 111u8 && t[2] == 111u8 && t[3] == 112u8 {
        Kw::Loop
    } else if t.len() == 6 && t[0] == 118u8 && t[1] == 101u8 && t[2] == 114u8 && t[3] == 116u8
        && t[4] == 101u8 && t[5] == 120u8 {
        Kw::Vertex
    } else if t.len() == 7 && t[0] == 101u8 && t[1] == 110u8 && t[2] == 100u8 && t[3] == 108u8
        && t[4] == 111u8 && t[5] == 111u8 && t[6] == 112u8 {
        Kw::Endloop
    } else if t.len() == 8 && t[0] == 101u8 && t[1] == 110u8 && t[2] == 100u8 && t[3] == 102u8
        && t[4] == 97u8 && t[5] == 99u8 && t[6] == 101u8 && t[7] == 116u8 {
        Kw::Endfacet
    } else if t.len() == 8 && t[0] == 101u8 && t[1] == 110u8 && t[2] == 100u8 && t[3] == 115u8
        && t[4] == 111u8 && t[5] == 108u8 && t[6] == 105u8 && t[7] == 100u8 {
        Kw::Endsolid
    } else {
        Kw::Other
    }
}

/// The next token from cursor `i`: its start and end.
fn next_token(s: &Vec<u8>, i: usize) -> (r: (usize, usize))
    requires
        i <= s@.len(),
    ensures
        r.0 as int == skip_blanks(s@, i as int),
        r.1 as int == token_end(s@, r.0 as int),
        i <= r.0 <= r.1 <= s@.len(),
        r.0 < s@.len() ==> r.0 < r.1,
{
    let n = s.len();
    let mut ts = i;
    while ts < n && (s[ts] == 32u8 || s[ts] == 9u8 || s[ts] == 10u8 || s[ts] == 13u8)
        invariant
            i <= ts <= n,
            n == s@.len(),
            skip_blanks(s@, i as int) == skip_blanks(s@, ts as int),
        decreases n - ts,
    {
        ts = ts + 1;
    }
    let mut te = ts;
    while te < n && !(s[te] == 32u8 || s[te] == 9u8 || s[te] == 10u8 || s[te] == 13u8)
        invariant
            ts <= te <= n,
            n == s@.len(),
            token_end(s@, ts as int) == token_end(s@, te as int),
            ts < n ==> !is_blank(s@[ts as int]),
        decreases n - te,
    {
        te = te + 1;
    }
    (ts, te)
}

/// Which keyword the token `s[ts .. te)` spells.
fn classify(s: &Vec<u8>, ts: usize, te: usize) -> (k: Kw)
    requires
        ts <= te <= s@.len(),
    ensures
        k == kw_of(s@.subrange(ts as int, te as int)),
{
    let ghost t = s@.subrange(ts as int, te as int);
    let n = te - ts;
    if n == 5 {
        if s[ts] == 115u8 && s[ts + 1] == 111u8 && s[ts + 2] == 108u8 && s[ts + 3] == 105u8
            && s[ts + 4] == 100u8 {
            Kw::Solid
        } else if s[ts] == 102u8 && s[ts + 1] == 97u8 && s[ts + 2] == 99u8 && s[ts + 3] == 101u8
            && s[ts + 4] == 116u8 {
            Kw::Facet
        } else if s[ts] == 111u8 && s[ts + 1] == 117u8 && s[ts + 2] == 116u8 && s[ts + 3] == 101u8
            && s[ts + 4] == 114u8 {
            Kw::Outer
        } else {
            Kw::Other
        }
    } else if n == 4 {
        if s[ts] == 108u8 && s[ts + 1] == 111u8 && s[ts + 2] == 111u8 && s[ts + 3] == 112u8 {
            Kw::Loop
        } else {
            Kw::Other
        }
    } else if n == 6 {
        if s[ts] == 110u8 && s[ts + 1] == 111u8 && s[ts + 2] == 114u8 && s[ts + 3] == 109u8
            && s[ts + 4] == 97u8 && s[ts + 5] == 108u8 {
            Kw::Normal
        } else if s[ts] == 118u8 && s[ts + 1] == 101u8 && s[ts + 2] == 114u8 && s[ts + 3] == 116u8
            && s[ts + 4] == 101u8 && s[ts + 5] == 120u8 {
            Kw::Vertex
        } else {
            Kw::Other
        }
    } else if n == 7 {
        if s[ts] == 101u8 && s[ts + 1] == 110u8 && s[ts + 2] == 100u8 && s[ts + 3] == 108u8
            && s[ts + 4] == 111u8 && s[ts + 5] == 111u8 && s[ts + 6] == 112u8 {
            Kw::Endloop
        } else {
            Kw::Other
        }
    } else if n == 8 {
        if s[ts] == 101u8 && s[ts + 1] == 110u8 && s[ts + 2] == 100u8 && s[ts + 3] == 102u8
            && s[ts + 4] == 97u8 && s[ts + 5] == 99u8 && s[ts + 6] == 101u8 && s[ts + 7] == 116u8 {
            Kw::Endfacet
        } else if s[ts] == 101u8 && s[ts + 1] == 110u8 && s[ts + 2] == 100u8 && s[ts + 3] == 115u8
            && s[ts + 4] == 111u8 && s[ts + 5] == 108u8 && s[ts + 6] == 105u8 && s[ts + 7] == 100u8 {
            Kw::Endsolid
        } else {
            Kw::Other
        }
    } else {
        Kw::Other
    }
}

/// Ten to the `e`, for exponents that fit the working width.
fn pow10_i64(e: u32) -> (r: i64)
    requires
        e <= 17,
    ensures
        r as int == pow10(e as nat),
        1 <= r,
{
    let mut i: u32 = 0;
    let mut acc: i64 = 1;
    while i < e
        invariant
            i <= e <= 17,
            acc as int == pow10(i as nat),
            1 <= acc,
            acc <= 100_000_000_000_000_000i64,
        decreases e - i,
    {
        proof {
            lemma_pow10_bounded(i as nat + 1);
        }
        acc = acc * 10;
        i = i + 1;
    }
    acc
}

/// Ten to the power is monotone in the exponent.
proof fn lemma_pow10_le(a: nat, b: nat)
    requires
        a <= b,
    ensures
        pow10(a) <= pow10(b),
    decreases b,
{
    if a < b {
        lemma_pow10_le(a, (b - 1) as nat);
        lemma_pow10_pos((b - 1) as nat);
    }
}

/// Ten to the `n` stays below ten to the eighteenth for `n` up to seventeen.
proof fn lemma_pow10_bounded(n: nat)
    requires
        n <= 17,
    ensures
        pow10(n) <= 100_000_000_000_000_000,
{
    lemma_pow10_le(n, 17);
    reveal_with_fuel(pow10, 19);
    assert(pow10(17) == 100_000_000_000_000_000);
}

/// End of the digit run of the token `s[ts .. te)` beginning at `from`,
/// with every byte of the run a digit.
fn digit_run_exec(s: &Vec<u8>, ts: usize, te: usize, from: usize) -> (r: usize)
    requires
        ts <= te <= s@.len(),
        from <= te - ts,
    ensures
        r as int == digit_run(s@.subrange(ts as int, te as int), from as int),
        from <= r <= te - ts,
        forall|k: int| from <= k < r ==> is_digit(#[trigger] s@.subrange(ts as int, te as int)[k]),
{
    let ghost t = s@.subrange(ts as int, te as int);
    let width = te - ts;
    let mut cur = from;
    while cur < width && 48u8 <= s[ts + cur] && s[ts + cur] <= 57u8
        invariant
            from <= cur <= width,
            width == te - ts,
            ts <= te <= s@.len(),
            t == s@.subrange(ts as int, te as int),
            digit_run(t, from as int) == digit_run(t, cur as int),
            forall|k: int| from <= k < cur ==> is_digit(#[trigger] t[k]),
        decreases width - cur,
    {
        cur = cur + 1;
    }
    cur
}

/// Fold a digit run into the significant-digit accumulator.
fn fold_mant_exec(s: &Vec<u8>, ts: usize, te: usize, i: usize, j: usize, acc0: i64, kept0: u32) -> (r: (
    i64,
    u32,
))
    requires
        ts <= te <= s@.len(),
        i <= j <= te - ts,
        0 <= acc0,
        kept0 <= 13,
        acc0 < pow10(kept0 as nat),
        forall|k: int| i <= k < j ==> is_digit(#[trigger] s@.subrange(ts as int, te as int)[k]),
    ensures
        fold_mant(s@.subrange(ts as int, te as int), i as int, j as int, acc0 as int, kept0 as int)
            == (r.0 as int, r.1 as int),
        0 <= r.0,
        kept0 <= r.1 <= 13,
        r.0 < pow10(r.1 as nat),
        r.1 - kept0 <= j - i,
{
    let ghost t = s@.subrange(ts as int, te as int);
    let mut cur = i;
    let mut acc = acc0;
    let mut kept = kept0;
    while cur < j
        invariant
            i <= cur <= j <= te - ts,
            ts <= te <= s@.len(),
            t == s@.subrange(ts as int, te as int),
            forall|k: int| i <= k < j ==> is_digit(#[trigger] t[k]),
            0 <= acc,
            kept0 <= kept <= 13,
            acc < pow10(kept as nat),
            kept - kept0 <= cur - i,
            fold_mant(t, i as int, j as int, acc0 as int, kept0 as int) == fold_mant(
                t,
                cur as int,
                j as int,
                acc as int,
                kept as int,
            ),
        decreases j - cur,
    {
        let d = s[ts + cur];
        if kept < 13 {
            proof {
                lemma_pow10_bounded(kept as nat + 1);
            }
            acc = acc * 10 + ((d - 48u8) as i64);
            kept = kept + 1;
        }
        cur = cur + 1;
    }
    (acc, kept)
}

/// Fold an exponent's digit run, saturating at ten thousand.
fn fold_exp_exec(s: &Vec<u8>, ts: usize, te: usize, i: usize, j: usize) -> (r: i64)
    requires
        ts <= te <= s@.len(),
        i <= j <= te - ts,
        forall|k: int| i <= k < j ==> is_digit(#[trigger] s@.subrange(ts as int, te as int)[k]),
    ensures
        r as int == fold_exp(s@.subrange(ts as int, te as int), i as int, j as int, 0),
        0 <= r <= 10000,
{
    let ghost t = s@.subrange(ts as int, te as int);
    let mut cur = i;
    let mut acc: i64 = 0;
    while cur < j
        invariant
            i <= cur <= j <= te - ts,
            ts <= te <= s@.len(),
            t == s@.subrange(ts as int, te as int),
            forall|k: int| i <= k < j ==> is_digit(#[trigger] t[k]),
            0 <= acc <= 10000,
            fold_exp(t, i as int, j as int, 0) == fold_exp(t, cur as int, j as int, acc as int),
        decreases j - cur,
    {
        let d = s[ts + cur];
        let next = acc * 10 + ((d - 48u8) as i64);
        if next > 10000 {
            acc = 10000;
        } else {
            acc = next;
        }
        cur = cur + 1;
    }
    acc
}

/// The saturated, truncated magnitude, matching `mag_of` exactly.
fn mag_exec(d: i64, eff: i64) -> (m: i64)
    requires
        0 <= d < 10_000_000_000_000i64,
        -20000 <= eff <= 20000,
    ensures
        m as int == mag_of(d as int, eff as int),
        0 <= m <= FX_COORD_MAX,
{
    if d == 0 {
        0
    } else if eff >= 14 {
        FX_COORD_MAX
    } else if eff <= -18 {
        0
    } else if eff >= 0 {
        let p = pow10_i64(eff as u32);
        proof {
            lemma_pow10_bounded(eff as nat);
            vstd::arithmetic::div_mod::lemma_fundamental_div_mod(0x4000_0000, p as int);
            vstd::arithmetic::div_mod::lemma_mod_bound(0x4000_0000, p as int);
        }
        let q = 0x4000_0000i64 / p;
        if d > q {
            proof {
                vstd::arithmetic::mul::lemma_mul_inequality(q as int + 1, d as int, p as int);
                assert((q as int + 1) * (p as int) == q as int * (p as int) + p as int)
                    by (nonlinear_arith);
                assert(q as int * (p as int) == (p as int) * (q as int)) by (nonlinear_arith);
                assert(d as int * (p as int) > 0x4000_0000);
                assert(d as int * (p as int) * 65536 > 0x4000_0000_0000)
                    by (nonlinear_arith)
                    requires
                        d as int * (p as int) > 0x4000_0000;
            }
            FX_COORD_MAX
        } else {
            proof {
                vstd::arithmetic::mul::lemma_mul_inequality(d as int, q as int, p as int);
                vstd::arithmetic::mul::lemma_mul_nonnegative(d as int, p as int);
                assert(q as int * (p as int) == (p as int) * (q as int)) by (nonlinear_arith);
                assert(q as int * (p as int) <= 0x4000_0000);
                assert(0 <= d as int * (p as int) <= 0x4000_0000);
            }
            let dp = d * p;
            dp * 65536
        }
    } else {
        let den = pow10_i64((-eff) as u32);
        proof {
            lemma_pow10_bounded((-eff) as nat);
            vstd::arithmetic::div_mod::lemma_div_pos_is_pos(d as int * 65536, den as int);
            vstd::arithmetic::div_mod::lemma_div_is_ordered(
                d as int * 65536,
                0x8_0000_0000_0000_0000 - 1,
                den as int,
            );
        }
        let num = d * 65536;
        let m = num / den;
        if m > FX_COORD_MAX {
            FX_COORD_MAX
        } else {
            m
        }
    }
}

/// The fixed-point ticks of the token `s[ts .. te)`, exactly as `num_ticks`
/// reads it, or nothing when it is not a number.
#[verifier::rlimit(80)]
fn parse_number(s: &Vec<u8>, ts: usize, te: usize) -> (r: Option<i64>)
    requires
        ts <= te <= s@.len(),
    ensures
        match r {
            Some(v) => num_ticks(s@.subrange(ts as int, te as int)) == Some(v as int)
                && -FX_COORD_MAX <= v <= FX_COORD_MAX,
            None => num_ticks(s@.subrange(ts as int, te as int)) is None,
        },
{
    let ghost t = s@.subrange(ts as int, te as int);
    let width = te - ts;
    let m0: usize = if width > 0 && (s[ts] == 43u8 || s[ts] == 45u8) {
        1
    } else {
        0
    };
    let neg = width > 0 && s[ts] == 45u8;
    if m0 > width {
        // A lone sign with no room for digits: not a number.
        proof {
            assert(digit_run(t, 1) == 1);
        }
        return None;
    }
    let ie = digit_run_exec(s, ts, te, m0);
    let has_point = ie < width && s[ts + ie] == 46u8;
    let f0: usize = if has_point {
        ie + 1
    } else {
        ie
    };
    let fe: usize = if has_point {
        digit_run_exec(s, ts, te, ie + 1)
    } else {
        ie
    };
    if ie == m0 && fe == f0 {
        return None;
    }
    let e_signed: i64;
    if fe == width {
        e_signed = 0;
    } else if s[ts + fe] == 101u8 || s[ts + fe] == 69u8 {
        let e0 = fe + 1;
        let has_esign = e0 < width && (s[ts + e0] == 43u8 || s[ts + e0] == 45u8);
        let es: usize = if has_esign {
            e0 + 1
        } else {
            e0
        };
        let eneg = e0 < width && s[ts + e0] == 45u8;
        if es > width {
            // The exponent mark ends the token: no digits can follow.
            proof {
                assert(digit_run(t, es as int) == es);
            }
            return None;
        }
        let ee = digit_run_exec(s, ts, te, es);
        if !(ee == width && ee > es) {
            return None;
        }
        let ev = fold_exp_exec(s, ts, te, es, ee);
        e_signed = if eneg {
            -ev
        } else {
            ev
        };
    } else {
        return None;
    }
    proof {
        lemma_pow10_bounded(0);
    }
    let (d1, k1) = fold_mant_exec(s, ts, te, m0, ie, 0, 0);
    let (d2, k2) = fold_mant_exec(s, ts, te, f0, fe, d1, k1);
    proof {
        lemma_pow10_le(k2 as nat, 13);
        reveal_with_fuel(pow10, 15);
        assert(pow10(13) == 10_000_000_000_000);
    }
    let sk0 = (ie - m0) - (k1 as usize);
    let sk: i64 = if sk0 > 100 {
        100
    } else {
        sk0 as i64
    };
    let eff = e_signed + sk - ((k2 - k1) as i64);
    let mag = mag_exec(d2, eff);
    if neg {
        Some(-mag)
    } else {
        Some(mag)
    }
}


/// The cursor after the token at `i`.
pub open spec fn tok_adv(s: Seq<u8>, i: int) -> int {
    token_end(s, skip_blanks(s, i))
}

/// The keyword the token at cursor `i` spells; `Other` at the end of input.
pub open spec fn tok_kw(s: Seq<u8>, i: int) -> Kw {
    kw_of(s.subrange(skip_blanks(s, i), tok_adv(s, i)))
}

/// The number the token at cursor `i` encodes, if it is one.
pub open spec fn tok_num(s: Seq<u8>, i: int) -> Option<int> {
    num_ticks(s.subrange(skip_blanks(s, i), tok_adv(s, i)))
}

/// No token is left at or after cursor `i`.
pub open spec fn at_end(s: Seq<u8>, i: int) -> bool {
    skip_blanks(s, i) >= s.len()
}

/// Three number tokens from cursor `i`: the vector and the cursor after it.
pub open spec fn vec3_tail(s: Seq<u8>, i: int) -> Option<(Vec3, int)> {
    match tok_num(s, i) {
        Some(x) => {
            let i1 = tok_adv(s, i);
            match tok_num(s, i1) {
                Some(y) => {
                    let i2 = tok_adv(s, i1);
                    match tok_num(s, i2) {
                        Some(z) => Some(
                            (Vec3 { x: x as i64, y: y as i64, z: z as i64 }, tok_adv(s, i2)),
                        ),
                        None => None,
                    }
                },
                None => None,
            }
        },
        None => None,
    }
}

/// The rest of a facet record after its `facet` keyword: `normal` and its
/// vector, `outer loop`, three `vertex` corners, `endloop`, `endfacet`; the
/// triangle read and the cursor after the record.
pub open spec fn facet_tail(s: Seq<u8>, i: int) -> Option<(Triangle, int)> {
    if tok_kw(s, i) != Kw::Normal {
        None
    } else {
        match vec3_tail(s, tok_adv(s, i)) {
            None => None,
            Some((n, i1)) => {
                if tok_kw(s, i1) != Kw::Outer {
                    None
                } else {
                    let i2 = tok_adv(s, i1);
                    if tok_kw(s, i2) != Kw::Loop {
                        None
                    } else {
                        let i3 = tok_adv(s, i2);
                        if tok_kw(s, i3) != Kw::Vertex {
                            None
                        } else {
                            match vec3_tail(s, tok_adv(s, i3)) {
                                None => None,
                                Some((a, i4)) => {
                                    if tok_kw(s, i4) != Kw::Vertex {
                                        None
                                    } else {
                                        match vec3_tail(s, tok_adv(s, i4)) {
                                            None => None,
                                            Some((b, i5)) => {
                                                if tok_kw(s, i5) != Kw::Vertex {
                                                    None
                                                } else {
                                                    match vec3_tail(s, tok_adv(s, i5)) {
                                                        None => None,
                                                        Some((c, i6)) => {
                                                            if tok_kw(s, i6) != Kw::Endloop {
                                                                None
                                                            } else {
                                                                let i7 = tok_adv(s, i6);
                                                                if tok_kw(s, i7) != Kw::Endfacet {
                                                                    None
                                                                } else {
                                                                    Some(
                                                                        (Triangle {
                                                                            normal: n,
                                                                            a: a,
                                                                            b: b,
                                                                            c: c,
                                                                        }, tok_adv(s, i7)),
                                                                    )
                                                                }
                                                            }
                                                        },
                                                    }
                                                }
                                            },
                                        }
                                    }
                                },
                            }
                        }
                    }
                }
            },
        }
    }
}

/// A present token advances the cursor.
proof fn lemma_tok_strict(s: Seq<u8>, i: int)
    requires
        skip_blanks(s, i) < s.len(),
    ensures
        0 <= i < s.len(),
        i < tok_adv(s, i) <= s.len(),
{
    if 0 <= i <= s.len() {
        lemma_skip_blanks_bounds(s, i);
    }
    let ts = skip_blanks(s, i);
    assert(!is_blank(s[ts]));
    assert(token_end(s, ts) == token_end(s, ts + 1));
    lemma_token_end_bounds(s, ts + 1);
}

/// The cursor never moves backward over a token.
proof fn lemma_tok_adv_bounds(s: Seq<u8>, i: int)
    requires
        0 <= i <= s.len(),
    ensures
        i <= tok_adv(s, i) <= s.len(),
{
    lemma_skip_blanks_bounds(s, i);
    lemma_token_end_bounds(s, skip_blanks(s, i));
}

/// A missing token spells no keyword.
proof fn lemma_at_end_other(s: Seq<u8>, i: int)
    requires
        at_end(s, i),
    ensures
        tok_kw(s, i) == Kw::Other,
{
    if 0 <= i <= s.len() {
        lemma_skip_blanks_bounds(s, i);
    }
    assert(s.subrange(skip_blanks(s, i), tok_adv(s, i)).len() == 0);
}

/// Reading a vector leaves the cursor within the input, no earlier.
proof fn lemma_vec3_tail_bounds(s: Seq<u8>, i: int)
    requires
        0 <= i <= s.len(),
    ensures
        vec3_tail(s, i) matches Some((v, j)) ==> i <= j <= s.len(),
{
    lemma_tok_adv_bounds(s, i);
    lemma_tok_adv_bounds(s, tok_adv(s, i));
    lemma_tok_adv_bounds(s, tok_adv(s, tok_adv(s, i)));
}

/// Reading a facet record leaves the cursor within the input, no earlier.
proof fn lemma_facet_tail_bounds(s: Seq<u8>, i: int)
    requires
        0 <= i <= s.len(),
    ensures
        facet_tail(s, i) matches Some((t, j)) ==> i <= j <= s.len(),
{
    lemma_tok_adv_bounds(s, i);
    lemma_vec3_tail_bounds(s, tok_adv(s, i));
    match vec3_tail(s, tok_adv(s, i)) {
        None => {},
        Some((n, i1)) => {
            lemma_tok_adv_bounds(s, i1);
            let i2 = tok_adv(s, i1);
            lemma_tok_adv_bounds(s, i2);
            let i3 = tok_adv(s, i2);
            lemma_tok_adv_bounds(s, i3);
            lemma_vec3_tail_bounds(s, tok_adv(s, i3));
            match vec3_tail(s, tok_adv(s, i3)) {
                None => {},
                Some((a, i4)) => {
                    lemma_tok_adv_bounds(s, i4);
                    lemma_vec3_tail_bounds(s, tok_adv(s, i4));
                    match vec3_tail(s, tok_adv(s, i4)) {
                        None => {},
                        Some((b, i5)) => {
                            lemma_tok_adv_bounds(s, i5);
                            lemma_vec3_tail_bounds(s, tok_adv(s, i5));
                            match vec3_tail(s, tok_adv(s, i5)) {
                                None => {},
                                Some((c, i6)) => {
                                    lemma_tok_adv_bounds(s, i6);
                                    let i7 = tok_adv(s, i6);
                                    lemma_tok_adv_bounds(s, i7);
                                },
                            }
                        },
                    }
                },
            }
        },
    }
}

/// The cursor after the name tokens that follow the `solid` tag: everything
/// up to the first `facet` or `endsolid`, or the end of input.
pub open spec fn skip_names(s: Seq<u8>, i: int) -> int
    decreases s.len() - i,
    via skip_names_dec
{
    if at_end(s, i) {
        i
    } else if tok_kw(s, i) == Kw::Facet || tok_kw(s, i) == Kw::Endsolid {
        i
    } else {
        skip_names(s, tok_adv(s, i))
    }
}

#[via_fn]
proof fn skip_names_dec(s: Seq<u8>, i: int) {
    if !at_end(s, i) {
        lemma_tok_strict(s, i);
    }
}

/// The facet records from cursor `i` on, ended by `endsolid`: a record that
/// deviates from the grammar or breaks off is `TruncatedData`; a stray token
/// between records is `MalformedHeader`; input ending before `endsolid` is
/// `TruncatedData`.
pub open spec fn text_records(s: Seq<u8>, i: int) -> Result<Seq<Triangle>, LoadError>
    decreases s.len() - i,
    via text_records_dec
{
    if tok_kw(s, i) == Kw::Endsolid {
        Ok(Seq::empty())
    } else if tok_kw(s, i) == Kw::Facet {
        match facet_tail(s, tok_adv(s, i)) {
            Some((tri, j)) => match text_records(s, j) {
                Ok(rest) => Ok(seq![tri] + rest),
                Err(e) => Err(e),
            },
            None => Err(LoadError::TruncatedData),
        }
    } else if at_end(s, i) {
        Err(LoadError::TruncatedData)
    } else {
        Err(LoadError::MalformedHeader)
    }
}

#[via_fn]
proof fn text_records_dec(s: Seq<u8>, i: int) {
    if tok_kw(s, i) == Kw::Facet {
        if at_end(s, i) {
            lemma_at_end_other(s, i);
        }
        lemma_tok_strict(s, i);
        lemma_facet_tail_bounds(s, tok_adv(s, i));
    }
}

/// The mesh a readable-text input encodes, or the error it reports: the
/// `solid` tag, an optional name, the facet records, `endsolid`.
pub open spec fn text_parse(s: Seq<u8>) -> Result<Seq<Triangle>, LoadError> {
    if tok_kw(s, 0) != Kw::Solid {
        Err(LoadError::MalformedHeader)
    } else {
        text_records(s, skip_names(s, tok_adv(s, 0)))
    }
}


/// Three number tokens from cursor `i`.
fn parse_vec3(s: &Vec<u8>, i: usize) -> (r: Option<(Vec3, usize)>)
    requires
        i <= s@.len(),
    ensures
        match r {
            Some((v, j)) => {
                &&& vec3_tail(s@, i as int) == Some((v, j as int))
                &&& i <= j <= s@.len()
                &&& coord_wf(v.x as int) && coord_wf(v.y as int) && coord_wf(v.z as int)
            },
            None => vec3_tail(s@, i as int) is None,
        },
{
    let (ts, te) = next_token(s, i);
    match parse_number(s, ts, te) {
        None => None,
        Some(x) => {
            let (ts1, te1) = next_token(s, te);
            match parse_number(s, ts1, te1) {
                None => None,
                Some(y) => {
                    let (ts2, te2) = next_token(s, te1);
                    match parse_number(s, ts2, te2) {
                        None => None,
                        Some(z) => Some((Vec3 { x, y, z }, te2)),
                    }
                },
            }
        },
    }
}

/// The rest of a facet record after its `facet` keyword.
#[verifier::rlimit(100)]
fn parse_facet_tail(s: &Vec<u8>, i: usize) -> (r: Option<(Triangle, usize)>)
    requires
        i <= s@.len(),
    ensures
        match r {
            Some((t, j)) => {
                &&& facet_tail(s@, i as int) == Some((t, j as int))
                &&& i <= j <= s@.len()
                &&& tri_wf(t)
            },
            None => facet_tail(s@, i as int) is None,
        },
{
    let (ts, te) = next_token(s, i);
    if classify(s, ts, te) != Kw::Normal {
        return None;
    }
    let n = match parse_vec3(s, te) {
        None => {
            return None;
        },
        Some(p) => p,
    };
    let (ts1, te1) = next_token(s, n.1);
    if classify(s, ts1, te1) != Kw::Outer {
        return None;
    }
    let (ts2, te2) = next_token(s, te1);
    if classify(s, ts2, te2) != Kw::Loop {
        return None;
    }
    let (ts3, te3) = next_token(s, te2);
    if classify(s, ts3, te3) != Kw::Vertex {
        return None;
    }
    let a = match parse_vec3(s, te3) {
        None => {
            return None;
        },
        Some(p) => p,
    };
    let (ts4, te4) = next_token(s, a.1);
    if classify(s, ts4, te4) != Kw::Vertex {
        return None;
    }
    let b = match parse_vec3(s, te4) {
        None => {
            return None;
        },
        Some(p) => p,
    };
    let (ts5, te5) = next_token(s, b.1);
    if classify(s, ts5, te5) != Kw::Vertex {
        return None;
    }
    let c = match parse_vec3(s, te5) {
        None => {
            return None;
        },
        Some(p) => p,
    };
    let (ts6, te6) = next_token(s, c.1);
    if classify(s, ts6, te6) != Kw::Endloop {
        return None;
    }
    let (ts7, te7) = next_token(s, te6);
    if classify(s, ts7, te7) != Kw::Endfacet {
        return None;
    }
    Some((Triangle { normal: n.0, a: a.0, b: b.0, c: c.0 }, te7))
}

/// Step over the name tokens that follow the `solid` tag.
fn skip_name_tokens(s: &Vec<u8>, start: usize) -> (r: usize)
    requires
        start <= s@.len(),
    ensures
        r as int == skip_names(s@, start as int),
        r <= s@.len(),
{
    let mut cur = start;
    loop
        invariant
            cur <= s@.len(),
            skip_names(s@, start as int) == skip_names(s@, cur as int),
        decreases s@.len() - cur,
    {
        let (nts, nte) = next_token(s, cur);
        if nts >= s.len() {
            return cur;
        }
        let k = classify(s, nts, nte);
        if k == Kw::Facet || k == Kw::Endsolid {
            return cur;
        }
        cur = nte;
    }
}

/// The facet records from `start` on, as `text_records` reads them.
#[verifier::rlimit(100)]
fn parse_records(s: &Vec<u8>, start: usize) -> (r: Result<Vec<Triangle>, LoadError>)
    requires
        start <= s@.len(),
    ensures
        match r {
            Ok(tris) => text_records(s@, start as int) == Ok::<Seq<Triangle>, LoadError>(tris@)
                && mesh_wf(tris@),
            Err(e) => text_records(s@, start as int) == Err::<Seq<Triangle>, LoadError>(e),
        },
{
    let mut tris: Vec<Triangle> = Vec::new();
    let mut cur = start;
    proof {
        match text_records(s@, start as int) {
            Ok(r0) => {
                assert(Seq::<Triangle>::empty() + r0 =~= r0);
            },
            Err(_) => {},
        }
    }
    loop
        invariant
            cur <= s@.len(),
            mesh_wf(tris@),
            text_records(s@, start as int) == (match text_records(s@, cur as int) {
                Ok(rest) => Ok::<Seq<Triangle>, LoadError>(tris@ + rest),
                Err(e) => Err::<Seq<Triangle>, LoadError>(e),
            }),
        decreases s@.len() - cur,
    {
        let (ts, te) = next_token(s, cur);
        let k = classify(s, ts, te);
        if k == Kw::Endsolid {
            proof {
                assert(tris@ + Seq::<Triangle>::empty() =~= tris@);
            }
            return Ok(tris);
        }
        if k == Kw::Facet {
            match parse_facet_tail(s, te) {
                None => {
                    return Err(LoadError::TruncatedData);
                },
                Some((tri, j)) => {
                    proof {
                        let ghost old_tris = tris@;
                        match text_records(s@, j as int) {
                            Ok(rest) => {
                                assert(old_tris + (seq![tri] + rest) =~= old_tris.push(tri)
                                    + rest);
                            },
                            Err(_) => {},
                        }
                    }
                    tris.push(tri);
                    cur = j;
                },
            }
        } else if ts >= s.len() {
            return Err(LoadError::TruncatedData);
        } else {
            return Err(LoadError::MalformedHeader);
        }
    }
}

/// Parse a readable-text mesh input, exactly as `text_parse` reads it.
pub fn parse_text(s: &Vec<u8>) -> (r: Result<Mesh, LoadError>)
    ensures
        match r {
            Ok(m) => text_parse(s@) == Ok::<Seq<Triangle>, LoadError>(m.tris@) && m.wf(),
            Err(e) => text_parse(s@) == Err::<Seq<Triangle>, LoadError>(e),
        },
{
    let (ts, te) = next_token(s, 0);
    let k = classify(s, ts, te);
    if k != Kw::Solid {
        return Err(LoadError::MalformedHeader);
    }
    let names_end = skip_name_tokens(s, te);
    match parse_records(s, names_end) {
        Ok(tris) => Ok(Mesh { tris }),
        Err(e) => Err(e),
    }
}

} // verus!
