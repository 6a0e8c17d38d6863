//! Similarity of two biometric templates, used to detect a sensor that was
//! tampered with while the device was off.
//!
//! Both measures are kept as exact integer quantities: the normalized
//! similarity as a fraction, the cosine similarity as its dot product and
//! squared norms. A threshold is a fraction, and comparisons with it are
//! exact.

use vstd::prelude::*;
use crate::errors::TemplateError;

verus! {

/// Number of bytes in a template.
pub const TEMPLATE_SIZE: usize = 2048;

/// The largest possible sum of byte differences between two templates.
pub const MAX_DIFF: u64 = 522240;

/// Sum of `|a[i] - b[i]|` over the first `n` positions.
pub open spec fn total_diff(a: Seq<u8>, b: Seq<u8>, n: int) -> int
    decreases n,
{
    if n <= 0 {
        0
    } else {
        total_diff(a, b, n - 1) + abs_diff(a[n - 1], b[n - 1])
    }
}

pub open spec fn abs_diff(x: u8, y: u8) -> int {
    if x >= y { x - y } else { y - x }
}

/// Sum of `a[i] * b[i]` over the first `n` positions.
pub open spec fn dot(a: Seq<u8>, b: Seq<u8>, n: int) -> int
    decreases n,
{
    if n <= 0 {
        0
    } else {
        dot(a, b, n - 1) + a[n - 1] * b[n - 1]
    }
}

/// A similarity given as the exact fraction `num / den`.
#[derive(Clone, Copy, Debug, PartialEq, Eq, Structural)]
pub struct Similarity {
    pub num: u64,
    pub den: u64,
}

/// The cosine similarity `dot / sqrt(norm_a_sq * norm_b_sq)`, given by its
/// integer parts.
#[derive(Clone, Copy, Debug, PartialEq, Eq, Structural)]
pub struct Cosine {
    pub dot: u64,
    pub norm_a_sq: u64,
    pub norm_b_sq: u64,
}

/// The fraction `num / den` that both similarities must reach.
#[derive(Clone, Copy, Debug, PartialEq, Eq, Structural)]
pub struct Threshold {
    pub num: u32,
    pub den: u32,
}

/// A threshold is a fraction between 0 and 1.
pub open spec fn valid_threshold(t: Threshold) -> bool {
    0 < t.den && t.num <= t.den
}

/// `s >= t`, exactly.
pub open spec fn similarity_reaches(s: Similarity, t: Threshold) -> bool {
    s.num * t.den >= t.num * s.den
}

/// `c >= t`, exactly: as the dot product of byte vectors is never negative,
/// `dot / sqrt(na * nb) >= num / den` holds iff
/// `dot^2 * den^2 >= num^2 * na * nb`.
pub open spec fn cosine_reaches(c: Cosine, t: Threshold) -> bool {
    c.dot * c.dot * (t.den * t.den) >= (t.num * t.num) * (c.norm_a_sq * c.norm_b_sq)
}

/// The outcome of comparing a mirrored template with a live one.
pub open spec fn match_outcome(a: Seq<u8>, b: Seq<u8>, t: Threshold) -> Result<(), TemplateError> {
    let n = TEMPLATE_SIZE as int;
    if dot(a, a, n) == 0 || dot(b, b, n) == 0 {
        Err(TemplateError::ZeroVector)
    } else if similarity_reaches(Similarity { num: (MAX_DIFF - total_diff(a, b, n)) as u64, den: MAX_DIFF }, t)
        && cosine_reaches(Cosine { dot: dot(a, b, n) as u64, norm_a_sq: dot(a, a, n) as u64, norm_b_sq: dot(b, b, n) as u64 }, t) {
        Ok(())
    } else {
        Err(TemplateError::TemplateMismatch)
    }
}

impl Threshold {
    /// The threshold used at boot: 90%.
    pub fn default_threshold() -> (t: Threshold)
        ensures
            t == (Threshold { num: 9, den: 10 }),
            valid_threshold(t),
    {
        Threshold { num: 9, den: 10 }
    }
}

/// The normalized similarity `1 - (sum |a_i - b_i|) / (255 * 2048)`.
pub fn normalized_similarity(a: &[u8; TEMPLATE_SIZE], b: &[u8; TEMPLATE_SIZE]) -> (r: Similarity)
    ensures
        r.den == MAX_DIFF,
        r.num == MAX_DIFF - total_diff(a@, b@, TEMPLATE_SIZE as int),
        r.num <= r.den,
{
    let mut total: u64 = 0;
    let mut i: usize = 0;
    while i < TEMPLATE_SIZE
        invariant
            i <= TEMPLATE_SIZE,
            a@.len() == TEMPLATE_SIZE,
            b@.len() == TEMPLATE_SIZE,
            total == total_diff(a@, b@, i as int),
            total <= 255 * i,
        decreases TEMPLATE_SIZE - i,
    {
        let x = a[i];
        let y = b[i];
        let d: u8 = if x >= y { x - y } else { y - x };
        total = total + d as u64;
        i = i + 1;
    }
    Similarity { num: MAX_DIFF - total, den: MAX_DIFF }
}

/// The cosine similarity of two templates; a template whose bytes are all
/// zero has no direction.
pub fn cosine_similarity(a: &[u8; TEMPLATE_SIZE], b: &[u8; TEMPLATE_SIZE]) -> (r: Result<Cosine, TemplateError>)
    ensures
        0 <= dot(a@, b@, TEMPLATE_SIZE as int) <= 133171200,
        0 <= dot(a@, a@, TEMPLATE_SIZE as int) <= 133171200,
        0 <= dot(b@, b@, TEMPLATE_SIZE as int) <= 133171200,
        dot(a@, a@, TEMPLATE_SIZE as int) == 0 || dot(b@, b@, TEMPLATE_SIZE as int) == 0
            ==> r == Err::<Cosine, TemplateError>(TemplateError::ZeroVector),
        dot(a@, a@, TEMPLATE_SIZE as int) != 0 && dot(b@, b@, TEMPLATE_SIZE as int) != 0
            ==> r == Ok::<Cosine, TemplateError>(Cosine {
                dot: dot(a@, b@, TEMPLATE_SIZE as int) as u64,
                norm_a_sq: dot(a@, a@, TEMPLATE_SIZE as int) as u64,
                norm_b_sq: dot(b@, b@, TEMPLATE_SIZE as int) as u64,
            }),
{
    let mut ab: u64 = 0;
    let mut aa: u64 = 0;
    let mut bb: u64 = 0;
    let mut i: usize = 0;
    while i < TEMPLATE_SIZE
        invariant
            i <= TEMPLATE_SIZE,
            a@.len() == TEMPLATE_SIZE,
            b@.len() == TEMPLATE_SIZE,
            ab == dot(a@, b@, i as int),
            0 <= dot(a@, b@, i as int),
            0 <= dot(a@, a@, i as int),
            0 <= dot(b@, b@, i as int),
            aa == dot(a@, a@, i as int),
            bb == dot(b@, b@, i as int),
            ab <= 65025 * i,
            aa <= 65025 * i,
            bb <= 65025 * i,
        decreases TEMPLATE_SIZE - i,
    {
        let x = a[i] as u64;
        let y = b[i] as u64;
        assert(x * y <= 65025 && x * x <= 65025 && y * y <= 65025) by (nonlinear_arith)
            requires
                x <= 255,
                y <= 255,
        ;
        ab = ab + x * y;
        aa = aa + x * x;
        bb = bb + y * y;
        i = i + 1;
    }
    if aa == 0 || bb == 0 {
        Err(TemplateError::ZeroVector)
    } else {
        Ok(Cosine { dot: ab, norm_a_sq: aa, norm_b_sq: bb })
    }
}

/// Whether a similarity reaches a threshold.
pub fn similarity_meets(s: Similarity, t: Threshold) -> (r: bool)
    ensures
        r == similarity_reaches(s, t),
{
    let sn = s.num as u128;
    let sd = s.den as u128;
    let tn = t.num as u128;
    let td = t.den as u128;
    assert(sn * td <= 0xffff_ffff_ffff_ffff * 0xffff_ffff) by (nonlinear_arith)
        requires sn <= 0xffff_ffff_ffff_ffff, td <= 0xffff_ffff;
    assert(tn * sd <= 0xffff_ffff * 0xffff_ffff_ffff_ffff) by (nonlinear_arith)
        requires sd <= 0xffff_ffff_ffff_ffff, tn <= 0xffff_ffff;
    sn * td >= tn * sd
}

/// Whether a cosine similarity reaches a threshold.
pub fn cosine_meets(c: Cosine, t: Threshold) -> (r: bool)
    requires
        c.dot <= 133171200,
        c.norm_a_sq <= 133171200,
        c.norm_b_sq <= 133171200,
    ensures
        r == cosine_reaches(c, t),
{
    let d = c.dot as u128;
    let den = t.den as u128;
    let num = t.num as u128;
    assert(d * d <= 133171200 * 133171200) by (nonlinear_arith)
        requires d <= 133171200;
    assert(den * den <= 0xffff_ffff * 0xffff_ffff) by (nonlinear_arith)
        requires den <= 0xffff_ffff;
    assert(num * num <= 0xffff_ffff * 0xffff_ffff) by (nonlinear_arith)
        requires num <= 0xffff_ffff;
    let na = c.norm_a_sq as u128;
    let nb = c.norm_b_sq as u128;
    assert(na * nb <= 133171200 * 133171200) by (nonlinear_arith)
        requires na <= 133171200, nb <= 133171200;
    let lhs_a = d * d;
    let lhs_b = den * den;
    let rhs_a = num * num;
    let rhs_b = na * nb;
    assert(lhs_a * lhs_b <= (133171200 * 133171200) * (0xffff_ffff * 0xffff_ffff)) by (nonlinear_arith)
        requires lhs_a <= 133171200 * 133171200, lhs_b <= 0xffff_ffff * 0xffff_ffff;
    assert(rhs_a * rhs_b <= (0xffff_ffff * 0xffff_ffff) * (133171200 * 133171200)) by (nonlinear_arith)
        requires rhs_b <= 133171200 * 133171200, rhs_a <= 0xffff_ffff * 0xffff_ffff;
    lhs_a * lhs_b >= rhs_a * rhs_b
}

/// Compares the mirrored template with the live one: both similarities are
/// computed, and the pair is accepted iff each reaches the threshold.
pub fn match_template(threshold: Threshold, stored: &[u8; TEMPLATE_SIZE], live: &[u8; TEMPLATE_SIZE]) -> (r: Result<(), TemplateError>)
    ensures
        r == match_outcome(stored@, live@, threshold),
{
    let norm = normalized_similarity(stored, live);
    let cos = match cosine_similarity(stored, live) {
        Ok(c) => c,
        Err(e) => return Err(e),
    };
    if similarity_meets(norm, threshold) && cosine_meets(cos, threshold) {
        Ok(())
    } else {
        Err(TemplateError::TemplateMismatch)
    }
}

/// Every byte of the sequence is zero.
pub open spec fn all_zero(a: Seq<u8>) -> bool {
    forall|i: int| 0 <= i < a.len() ==> a[i] == 0
}

proof fn lemma_self_diff_zero(a: Seq<u8>, n: int)
    requires
        0 <= n <= a.len(),
    ensures
        total_diff(a, a, n) == 0,
    decreases n,
{
    if n > 0 {
        lemma_self_diff_zero(a, n - 1);
    }
}

proof fn lemma_zero_norm(a: Seq<u8>, n: int)
    requires
        0 <= n <= a.len(),
        all_zero(a),
    ensures
        dot(a, a, n) == 0,
    decreases n,
{
    if n > 0 {
        lemma_zero_norm(a, n - 1);
    }
}

/// A template compared with itself: the normalized similarity is exactly 1,
/// and, unless the template is all zeros, so is the cosine similarity (its
/// dot product equals both norms), which therefore reaches every threshold.
/// An all-zero template has a zero norm.
pub proof fn lemma_self_similarity(a: Seq<u8>, t: Threshold)
    requires
        a.len() == TEMPLATE_SIZE,
        valid_threshold(t),
    ensures
        MAX_DIFF - total_diff(a, a, TEMPLATE_SIZE as int) == MAX_DIFF,
        ({
            let c = Cosine {
                dot: dot(a, a, TEMPLATE_SIZE as int) as u64,
                norm_a_sq: dot(a, a, TEMPLATE_SIZE as int) as u64,
                norm_b_sq: dot(a, a, TEMPLATE_SIZE as int) as u64,
            };
            &&& c.dot == c.norm_a_sq
            &&& c.dot == c.norm_b_sq
            &&& c.dot * c.dot == c.norm_a_sq * c.norm_b_sq
            &&& cosine_reaches(c, t)
        }),
        all_zero(a) ==> dot(a, a, TEMPLATE_SIZE as int) == 0,
{
    lemma_self_diff_zero(a, TEMPLATE_SIZE as int);
    if all_zero(a) {
        lemma_zero_norm(a, TEMPLATE_SIZE as int);
    }
    let d = dot(a, a, TEMPLATE_SIZE as int) as u64;
    let num = t.num as int;
    let den = t.den as int;
    assert(d * d * (den * den) >= (num * num) * (d * d)) by (nonlinear_arith)
        requires 0 <= num <= den;
}

/// The threshold is inclusive: a similarity exactly equal to it is accepted,
/// and one below it is rejected.
pub proof fn lemma_threshold_inclusive(s: Similarity, t: Threshold)
    ensures
        s.num * t.den == t.num * s.den ==> similarity_reaches(s, t),
        s.num * t.den < t.num * s.den ==> !similarity_reaches(s, t),
{
}

} // verus!
