//! The BMI calculator: a pure function turning a weight/height pair into a
//! classified, truncated score.
//!
//! BMI is weight in kilograms divided by height in meters squared. Height
//! arrives in whole centimeters, and all arithmetic is exact fixed-point:
//! a BMI value is held scaled by 10^4 (ten-thousandths), so the stored
//! quantity is `trunc(raw_bmi * 10^4) == (weight * 10^8) / height_cm^2`.
//! A zero height is rejected rather than classified.

use vstd::prelude::*;

verus! {

/// Weight status derived from a BMI value.
#[derive(Clone, Copy, Debug, PartialEq, Eq, Structural)]
pub enum Category {
    Underweight,
    Normal,
    Overweight,
    Obese,
}

/// The BMI in ten-thousandths, computed exactly over the integers:
/// `trunc((weight / (height_cm/100)^2) * 10^4) == (weight * 10^8) / height_cm^2`.
pub open spec fn spec_bmi_e4(weight: int, height_cm: int) -> int
    recommends
        height_cm > 0,
{
    (weight * 100000000) / (height_cm * height_cm)
}

/// Four-way classification over the fixed-point BMI. The ranges are closed
/// at 18.5, 24.9, 25.0 and 29.9 and are tried in order with `Obese` as the
/// default, so values strictly between 24.9 and 25.0 or between 29.9 and
/// 30.0 fall through to `Obese`.
pub open spec fn spec_category(bmi_e4: int) -> Category {
    if bmi_e4 < 185000 {
        Category::Underweight
    } else if bmi_e4 <= 249000 {
        Category::Normal
    } else if 250000 <= bmi_e4 <= 299000 {
        Category::Overweight
    } else {
        Category::Obese
    }
}

/// The whole-number BMI handed back to callers: the fixed-point value
/// truncated to an integer, saturating at `i32::MAX`, the largest value
/// the returned integer type can carry.
pub open spec fn spec_rounded(weight: int, height_cm: int) -> int
    recommends
        height_cm > 0,
{
    let t = spec_bmi_e4(weight, height_cm) / 10000;
    if t > i32::MAX { i32::MAX as int } else { t }
}

/// A computed BMI score: the exact fixed-point value, the truncated
/// whole-number form, and its classification.
#[derive(Clone, Copy, Debug)]
pub struct BmiReading {
    pub bmi_e4: u64,
    pub rounded: i32,
    pub category: Category,
}

/// Classifies a fixed-point BMI value into its weight status.
pub fn classify(bmi_e4: u64) -> (c: Category)
    ensures
        c == spec_category(bmi_e4 as int),
{
    if bmi_e4 < 185000 {
        Category::Underweight
    } else if bmi_e4 <= 249000 {
        Category::Normal
    } else if 250000 <= bmi_e4 && bmi_e4 <= 299000 {
        Category::Overweight
    } else {
        Category::Obese
    }
}

/// Derives the BMI score for a weight in kilograms and a height in whole
/// centimeters. A zero height has no defined BMI and is rejected with
/// `None`; every positive height yields the exact fixed-point value, its
/// truncation and its classification.
pub fn compute_bmi(weight: u32, height_cm: u32) -> (r: Option<BmiReading>)
    ensures
        r is Some <==> height_cm > 0,
        (match r {
            Some(b) => {
                &&& b.bmi_e4 == spec_bmi_e4(weight as int, height_cm as int)
                &&& b.rounded == spec_rounded(weight as int, height_cm as int)
                &&& b.category == spec_category(b.bmi_e4 as int)
            },
            None => height_cm == 0,
        }),
{
    if height_cm == 0 {
        return None;
    }
    let h: u64 = height_cm as u64;
    proof {
        assert(1 <= h * h <= 0xffff_ffffu64 * 0xffff_ffffu64) by (nonlinear_arith)
            requires
                1 <= h <= 0xffff_ffffu64,
        ;
    }
    let h2: u64 = h * h;
    let num: u64 = (weight as u64) * 100000000;
    let bmi_e4: u64 = num / h2;
    let t: u64 = bmi_e4 / 10000;
    let rounded: i32 = if t > (i32::MAX as u64) {
        i32::MAX
    } else {
        t as i32
    };
    let category = classify(bmi_e4);
    Some(BmiReading { bmi_e4, rounded, category })
}

/// The whole-number result is the two-step truncation of the fixed-point
/// value: first to hundredths, then to a whole number — exactly
/// `trunc(trunc(raw_bmi * 100) / 100)`. Stated for the inputs on which the
/// value fits the returned integer type, where no saturation occurs.
pub proof fn lemma_rounded_two_step(weight: int, height_cm: int)
    requires
        weight >= 0,
        height_cm > 0,
        spec_bmi_e4(weight, height_cm) / 10000 <= i32::MAX,
    ensures
        spec_rounded(weight, height_cm) == (spec_bmi_e4(weight, height_cm) / 100) / 100,
{
    let b = spec_bmi_e4(weight, height_cm);
    assert(weight * 100000000 >= 0) by (nonlinear_arith)
        requires
            weight >= 0,
    ;
    assert(height_cm * height_cm > 0) by (nonlinear_arith)
        requires
            height_cm > 0,
    ;
    vstd::arithmetic::div_mod::lemma_div_pos_is_pos(weight * 100000000, height_cm * height_cm);
    vstd::arithmetic::div_mod::lemma_div_denominator(b, 100, 100);
}

} // verus!
