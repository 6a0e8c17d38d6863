use charizhard::errors::TemplateError;
use charizhard::matcher::{
    cosine_meets, cosine_similarity, match_template, normalized_similarity, similarity_meets, Cosine,
    Similarity, Threshold, MAX_DIFF, TEMPLATE_SIZE,
};

fn pattern() -> [u8; TEMPLATE_SIZE] {
    let mut a = [0u8; TEMPLATE_SIZE];
    for (i, b) in a.iter_mut().enumerate() {
        *b = (i % 251) as u8 + 1;
    }
    a
}

#[test]
fn template_against_itself() {
    let a = pattern();
    let n = normalized_similarity(&a, &a);
    assert_eq!(n, Similarity { num: MAX_DIFF, den: MAX_DIFF });
    let c = cosine_similarity(&a, &a).unwrap();
    assert_eq!(c.dot, c.norm_a_sq);
    assert_eq!(c.dot, c.norm_b_sq);
    let cos = c.dot as f64 / ((c.norm_a_sq as f64).sqrt() * (c.norm_b_sq as f64).sqrt());
    assert!((cos - 1.0).abs() < 1e-12);
    assert_eq!(match_template(Threshold::default_threshold(), &a, &a), Ok(()));
    assert_eq!(match_template(Threshold { num: 1, den: 1 }, &a, &a), Ok(()));
}

#[test]
fn zero_template_has_no_direction() {
    let z = [0u8; TEMPLATE_SIZE];
    let a = pattern();
    assert_eq!(cosine_similarity(&z, &a), Err(TemplateError::ZeroVector));
    assert_eq!(cosine_similarity(&a, &z), Err(TemplateError::ZeroVector));
    assert_eq!(match_template(Threshold::default_threshold(), &z, &z), Err(TemplateError::ZeroVector));
    assert_eq!(normalized_similarity(&z, &z), Similarity { num: MAX_DIFF, den: MAX_DIFF });
}

#[test]
fn exact_sums() {
    let mut a = [0u8; TEMPLATE_SIZE];
    let mut b = [0u8; TEMPLATE_SIZE];
    a[0] = 3;
    a[1] = 4;
    b[0] = 4;
    b[1] = 3;
    assert_eq!(normalized_similarity(&a, &b), Similarity { num: MAX_DIFF - 2, den: MAX_DIFF });
    assert_eq!(cosine_similarity(&a, &b), Ok(Cosine { dot: 24, norm_a_sq: 25, norm_b_sq: 25 }));
    // 24/25 = 0.96
    assert!(cosine_meets(Cosine { dot: 24, norm_a_sq: 25, norm_b_sq: 25 }, Threshold { num: 96, den: 100 }));
    assert!(!cosine_meets(Cosine { dot: 24, norm_a_sq: 25, norm_b_sq: 25 }, Threshold { num: 97, den: 100 }));
}

/// All bytes 255 against a copy where 204 bytes drop to 0 and one drops by
/// 204: the differences sum to exactly a tenth of the maximum.
fn boundary_pair(extra: u8) -> ([u8; TEMPLATE_SIZE], [u8; TEMPLATE_SIZE]) {
    let a = [255u8; TEMPLATE_SIZE];
    let mut b = [255u8; TEMPLATE_SIZE];
    for byte in b.iter_mut().take(204) {
        *byte = 0;
    }
    b[204] = 255 - extra;
    (a, b)
}

#[test]
fn threshold_boundary_is_inclusive() {
    let (a, b) = boundary_pair(204);
    let n = normalized_similarity(&a, &b);
    assert_eq!(n.den - n.num, 52224);
    assert_eq!(n.num * 10, n.den * 9);
    assert!(similarity_meets(n, Threshold::default_threshold()));
    assert_eq!(match_template(Threshold::default_threshold(), &a, &b), Ok(()));

    let (a, b) = boundary_pair(205);
    let n = normalized_similarity(&a, &b);
    assert!(!similarity_meets(n, Threshold::default_threshold()));
    assert_eq!(
        match_template(Threshold::default_threshold(), &a, &b),
        Err(TemplateError::TemplateMismatch)
    );
}

#[test]
fn tenth_of_bytes_at_maximum_delta() {
    // 205 of 2048 bytes (just over 10%) differ by 255: below 0.90.
    let a = [255u8; TEMPLATE_SIZE];
    let mut b = [255u8; TEMPLATE_SIZE];
    for byte in b.iter_mut().take(205) {
        *byte = 0;
    }
    let n = normalized_similarity(&a, &b);
    assert_eq!(n.den - n.num, 205 * 255);
    assert!(!similarity_meets(n, Threshold::default_threshold()));
    // 204 bytes: above 0.90.
    let mut c = [255u8; TEMPLATE_SIZE];
    for byte in c.iter_mut().take(204) {
        *byte = 0;
    }
    assert!(similarity_meets(normalized_similarity(&a, &c), Threshold::default_threshold()));
}

#[test]
fn low_cosine_is_a_mismatch() {
    let mut a = [0u8; TEMPLATE_SIZE];
    let mut b = [0u8; TEMPLATE_SIZE];
    a[0] = 1;
    b[1] = 1;
    let c = cosine_similarity(&a, &b).unwrap();
    assert_eq!(c.dot, 0);
    // normalized similarity is near 1, cosine is 0
    assert!(similarity_meets(normalized_similarity(&a, &b), Threshold::default_threshold()));
    assert_eq!(
        match_template(Threshold::default_threshold(), &a, &b),
        Err(TemplateError::TemplateMismatch)
    );
}
