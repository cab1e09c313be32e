//! Body mass index: weight over height squared, classified into six bands.

use vstd::prelude::*;
use crate::decimal::{round_div, round_div_i128, lemma_round_div_nearest, lemma_round_div_bounds};

verus! {

/// A person's weight and height.
pub struct BmiData {
    /// Weight in hundredths of a kilogram (`7000` is 70 kg).
    pub weight: u32,
    /// Height in hundredths of a metre (`175` is 1.75 m).
    pub height: u32,
}

/// The bands of the body mass index, from the lowest up.
#[derive(Debug, Clone, Copy, PartialEq, Eq, PartialOrd, Ord)]
pub enum BmiCategory {
    Underweight,
    NormalWeight,
    Overweight,
    ObesityGrade1,
    ObesityGrade2,
    ObesityGrade3,
}

impl BmiCategory {
    /// Position of the band in ascending order, from 0.
    pub open spec fn rank(self) -> nat {
        match self {
            BmiCategory::Underweight => 0,
            BmiCategory::NormalWeight => 1,
            BmiCategory::Overweight => 2,
            BmiCategory::ObesityGrade1 => 3,
            BmiCategory::ObesityGrade2 => 4,
            BmiCategory::ObesityGrade3 => 5,
        }
    }
}

/// BMI in hundredths for a weight in hundredths of a kilogram and a height in
/// hundredths of a metre: `weight / height²`, to the nearest hundredth.
pub open spec fn bmi_value(weight: int, height: int) -> int {
    round_div(weight * 10000, height * height)
}

/// The band of a BMI given in hundredths: the first threshold that it is under.
pub open spec fn bmi_category_of(bmi: int) -> BmiCategory {
    if bmi < 1850 {
        BmiCategory::Underweight
    } else if bmi < 2500 {
        BmiCategory::NormalWeight
    } else if bmi < 3000 {
        BmiCategory::Overweight
    } else if bmi < 3500 {
        BmiCategory::ObesityGrade1
    } else if bmi < 4000 {
        BmiCategory::ObesityGrade2
    } else {
        BmiCategory::ObesityGrade3
    }
}

/// The half-open interval of BMI values (in hundredths) that band `c` covers.
pub open spec fn bmi_in_band(bmi: int, c: BmiCategory) -> bool {
    match c {
        BmiCategory::Underweight => bmi < 1850,
        BmiCategory::NormalWeight => 1850 <= bmi < 2500,
        BmiCategory::Overweight => 2500 <= bmi < 3000,
        BmiCategory::ObesityGrade1 => 3000 <= bmi < 3500,
        BmiCategory::ObesityGrade2 => 3500 <= bmi < 4000,
        BmiCategory::ObesityGrade3 => 4000 <= bmi,
    }
}

/// The name of a band as the assessment text shows it.
pub open spec fn bmi_label(c: BmiCategory) -> Seq<char> {
    match c {
        BmiCategory::Underweight => "Underweight"@,
        BmiCategory::NormalWeight => "Normal weight"@,
        BmiCategory::Overweight => "Overweight"@,
        BmiCategory::ObesityGrade1 => "Obesity Grade 1"@,
        BmiCategory::ObesityGrade2 => "Obesity Grade 2"@,
        BmiCategory::ObesityGrade3 => "Obesity Grade 3 (morbid)"@,
    }
}

/// The assessment text for a band.
pub open spec fn bmi_assessment(c: BmiCategory) -> Seq<char> {
    "Your BMI assessment is:: "@ + bmi_label(c)
}

/// Calculation and classification of the body mass index.
pub struct BmiCalculator;

impl BmiCalculator {
    /// BMI in hundredths: weight over height squared, to the nearest hundredth.
    pub fn calculate(data: &BmiData) -> (r: i64)
        requires
            data.height > 0,
        ensures
            r == bmi_value(data.weight as int, data.height as int),
    {
        let w: i128 = data.weight as i128;
        let h: i128 = data.height as i128;
        assert(h * h <= u64::MAX) by (nonlinear_arith)
            requires 0 < h <= u32::MAX;
        assert(h * h >= 1) by (nonlinear_arith)
            requires 0 < h;
        let n: i128 = w * 10000;
        let d: i128 = h * h;
        let r = round_div_i128(n, d);
        proof {
            lemma_round_div_bounds(n as int, d as int);
        }
        r as i64
    }

    /// The band of a BMI given in hundredths.
    pub fn classify(bmi: i64) -> (r: BmiCategory)
        ensures
            r == bmi_category_of(bmi as int),
    {
        if bmi < 1850 {
            BmiCategory::Underweight
        } else if bmi < 2500 {
            BmiCategory::NormalWeight
        } else if bmi < 3000 {
            BmiCategory::Overweight
        } else if bmi < 3500 {
            BmiCategory::ObesityGrade1
        } else if bmi < 4000 {
            BmiCategory::ObesityGrade2
        } else {
            BmiCategory::ObesityGrade3
        }
    }

    /// The assessment text for a band; the value itself is not shown.
    pub fn evaluation_result(bmi: i64, category: &BmiCategory) -> (r: String)
        ensures
            r@ == bmi_assessment(*category),
    {
        let classification = match category {
            BmiCategory::Underweight => "Underweight",
            BmiCategory::NormalWeight => "Normal weight",
            BmiCategory::Overweight => "Overweight",
            BmiCategory::ObesityGrade1 => "Obesity Grade 1",
            BmiCategory::ObesityGrade2 => "Obesity Grade 2",
            BmiCategory::ObesityGrade3 => "Obesity Grade 3 (morbid)",
        };
        let mut text = String::from_str("Your BMI assessment is:: ");
        text.append(classification);
        text
    }
}

/// BMI is weight over height squared: the value that `calculate` returns is
/// within half a hundredth of `weight / height²`.
pub proof fn lemma_bmi_is_weight_over_height_squared(weight: u32, height: u32)
    requires
        height > 0,
    ensures
        ({
            let (w, h, b) = (weight as int, height as int, bmi_value(weight as int, height as int));
            &&& 2 * (h * h) * b - h * h <= 2 * (w * 10000)
            &&& 2 * (w * 10000) < 2 * (h * h) * b + h * h
        }),
{
    let h = height as int;
    assert(h * h > 0) by (nonlinear_arith)
        requires h > 0;
    lemma_round_div_nearest(weight * 10000, h * h);
}

/// The BMI bands cover every value without overlap: each value lies in
/// exactly one band, the one that `classify` returns.
pub proof fn lemma_bmi_bands_partition(bmi: int)
    ensures
        forall|c: BmiCategory| bmi_in_band(bmi, c) <==> c == bmi_category_of(bmi),
{
}

/// BMI classification is monotonic: a larger value never falls in a lower band.
pub proof fn lemma_bmi_classify_monotonic(a: int, b: int)
    requires
        a <= b,
    ensures
        bmi_category_of(a).rank() <= bmi_category_of(b).rank(),
{
}

} // verus!
