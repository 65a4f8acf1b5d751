use bmi_contract::bmi::{classify, compute_bmi, Category};
use bmi_contract::consent::{Consent, DataPermission};
use bmi_contract::text::{data_message, u64_to_dec};

#[test]
fn classification_boundaries_are_closed() {
    assert_eq!(classify(185000), Category::Normal);
    assert_eq!(classify(184999), Category::Underweight);
    assert_eq!(classify(299000), Category::Overweight);
    assert_eq!(classify(300000), Category::Obese);
}

#[test]
fn classification_edges() {
    assert_eq!(classify(0), Category::Underweight);
    assert_eq!(classify(249000), Category::Normal);
    assert_eq!(classify(250000), Category::Overweight);
    assert_eq!(classify(249500), Category::Obese, "between 24.9 and 25.0 falls through");
    assert_eq!(classify(299500), Category::Obese, "between 29.9 and 30.0 falls through");
    assert_eq!(classify(u64::MAX), Category::Obese);
}

#[test]
fn compute_bmi_truncates_exactly() {
    let b = compute_bmi(92, 136).expect("positive height accepted");
    assert_eq!(b.bmi_e4, 497404, "92 / 1.36^2 is 49.7404...");
    assert_eq!(b.rounded, 49, "truncated, not rounded up to 50");
    assert_eq!(b.category, Category::Obese);
}

#[test]
fn compute_bmi_exact_quotient() {
    let b = compute_bmi(45, 125).expect("positive height accepted");
    assert_eq!(b.bmi_e4, 288000, "45 / 1.25^2 is exactly 28.8");
    assert_eq!(b.rounded, 28);
    assert_eq!(b.category, Category::Overweight);
}

#[test]
fn compute_bmi_rejects_zero_height() {
    assert!(compute_bmi(70, 0).is_none());
    assert!(compute_bmi(0, 0).is_none());
}

#[test]
fn compute_bmi_zero_weight() {
    let b = compute_bmi(0, 175).expect("positive height accepted");
    assert_eq!(b.bmi_e4, 0);
    assert_eq!(b.rounded, 0);
    assert_eq!(b.category, Category::Underweight);
}

#[test]
fn compute_bmi_saturates_at_i32_max() {
    let b = compute_bmi(u32::MAX, 1).expect("positive height accepted");
    assert_eq!(b.rounded, i32::MAX);
    assert_eq!(b.category, Category::Obese);
}

#[test]
fn consent_tri_state() {
    assert_eq!(DataPermission::new(Some(true)).consent(), Consent::Granted);
    assert_eq!(DataPermission::new(Some(false)).consent(), Consent::Denied);
    assert_eq!(DataPermission::new(None).consent(), Consent::Unspecified);
    assert_eq!(DataPermission::default().consent(), Consent::Granted);
}

#[test]
fn decimal_rendering() {
    assert_eq!(u64_to_dec(0), "0");
    assert_eq!(u64_to_dec(7), "7");
    assert_eq!(u64_to_dec(10), "10");
    assert_eq!(u64_to_dec(497404), "497404");
    assert_eq!(u64_to_dec(u64::MAX), u64::MAX.to_string());
}

#[test]
fn measurement_rendering() {
    assert_eq!(data_message(288000, "kherld.testnet"), "BMI Data: 28.80 kherld.testnet");
    assert_eq!(data_message(497404, "x"), "BMI Data: 49.74 x");
    assert_eq!(data_message(228571, "y"), "BMI Data: 22.85 y");
    assert_eq!(data_message(99, "z"), "BMI Data: 0.00 z", "below a hundredth shows as zero");
}
