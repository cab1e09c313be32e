//! Basal metabolic rate (TMB): a linear formula per gender, classified by the
//! rate per kilogram of body weight into five bands.
//!
//! The formula is the revised Harris-Benedict one:
//! male `88.36 + 13.4·kg + 4.8·cm - 5.7·years`,
//! female `447.6 + 9.2·kg + 3.1·cm - 4.3·years` (kcal/day).

use vstd::prelude::*;
use crate::decimal::{
    round_div, round_div_i128, lemma_round_div_bounds, hundredths_text, push_hundredths,
};

verus! {

/// A person's gender, which selects formulas and thresholds.
#[derive(Debug, Clone, Copy, PartialEq, Eq)]
pub enum Gender {
    Male,
    Female,
}

/// Input of the metabolic rate.
pub struct TmbData {
    /// Weight in hundredths of a kilogram.
    pub weight: u32,
    /// Height in hundredths of a metre, which is centimetres.
    pub height: u32,
    /// Age in years.
    pub age: u32,
    pub gender: Gender,
}

/// Calculation and classification of the basal metabolic rate.
pub struct TmbCalculator;

/// Bands of the metabolic rate per kilogram, from the lowest up.
#[derive(Debug, Clone, Copy, PartialEq, Eq, PartialOrd, Ord)]
pub enum TmbCategory {
    VeryLow,
    Low,
    Normal,
    High,
    VeryHigh,
}

impl TmbCategory {
    /// Position of the band in ascending order, from 0.
    pub open spec fn rank(self) -> nat {
        match self {
            TmbCategory::VeryLow => 0,
            TmbCategory::Low => 1,
            TmbCategory::Normal => 2,
            TmbCategory::High => 3,
            TmbCategory::VeryHigh => 4,
        }
    }
}

/// Metabolic rate in hundredths of a kcal/day, to the nearest hundredth.
/// With the weight `w` in hundredths of a kilogram and the height `h` in
/// centimetres, ten times the male rate in hundredths is
/// `88360 + 134·w + 4800·h - 5700·age`, and the female one
/// `447600 + 92·w + 3100·h - 4300·age`.
pub open spec fn tmb_value(weight: int, height: int, age: int, gender: Gender) -> int {
    match gender {
        Gender::Male => round_div(88360 + 134 * weight + 4800 * height - 5700 * age, 10),
        Gender::Female => round_div(447600 + 92 * weight + 3100 * height - 4300 * age, 10),
    }
}

/// The four per-kilogram thresholds (kcal/kg/day) that separate the bands.
pub open spec fn tmb_thresholds(gender: Gender) -> (int, int, int, int) {
    match gender {
        Gender::Male => (15, 20, 25, 30),
        Gender::Female => (13, 18, 23, 28),
    }
}

/// The band of a rate `tmb` (hundredths of a kcal/day) for a weight in
/// hundredths of a kilogram: the first threshold that `tmb / weight` is under,
/// compared as `tmb < t·weight`. For a zero weight the quotient is unbounded:
/// a negative rate is `VeryLow` and any other `VeryHigh`.
pub open spec fn tmb_category_of(tmb: int, weight: int, gender: Gender) -> TmbCategory {
    let (t1, t2, t3, t4) = tmb_thresholds(gender);
    if tmb < t1 * weight {
        TmbCategory::VeryLow
    } else if tmb < t2 * weight {
        TmbCategory::Low
    } else if tmb < t3 * weight {
        TmbCategory::Normal
    } else if tmb < t4 * weight {
        TmbCategory::High
    } else {
        TmbCategory::VeryHigh
    }
}

/// The half-open interval of rates that band `c` covers for a weight.
pub open spec fn tmb_in_band(tmb: int, weight: int, gender: Gender, c: TmbCategory) -> bool {
    let (t1, t2, t3, t4) = tmb_thresholds(gender);
    match c {
        TmbCategory::VeryLow => tmb < t1 * weight,
        TmbCategory::Low => t1 * weight <= tmb < t2 * weight,
        TmbCategory::Normal => t2 * weight <= tmb < t3 * weight,
        TmbCategory::High => t3 * weight <= tmb < t4 * weight,
        TmbCategory::VeryHigh => t4 * weight <= tmb,
    }
}

/// Rate per kilogram in hundredths of a kcal/kg/day, to the nearest hundredth.
pub open spec fn tmb_per_kg_value(tmb: int, weight: int) -> int {
    round_div(tmb * 100, weight)
}

/// The name of a band as the report shows it.
pub open spec fn tmb_label(c: TmbCategory) -> Seq<char> {
    match c {
        TmbCategory::VeryLow => "Very low"@,
        TmbCategory::Low => "Low"@,
        TmbCategory::Normal => "Normal"@,
        TmbCategory::High => "High"@,
        TmbCategory::VeryHigh => "Very high"@,
    }
}

/// The rate per kilogram as the report writes it: with two decimals, or, for a
/// zero weight, the unbounded quotient as `inf`, `-inf`, or `NaN` for `0 / 0`.
pub open spec fn tmb_per_kg_text(tmb: int, weight: int) -> Seq<char> {
    if weight != 0 {
        hundredths_text(tmb_per_kg_value(tmb, weight))
    } else if tmb > 0 {
        "inf"@
    } else if tmb < 0 {
        "-inf"@
    } else {
        "NaN"@
    }
}

/// The three-line report: the rate, the rate per kilogram and the band.
pub open spec fn tmb_report(tmb: int, weight: int, c: TmbCategory) -> Seq<char> {
    "Your Basal Metabolic Rate (TMB) is "@ + hundredths_text(tmb) + " kcal/day.\nYour TMB per kg is "@
        + tmb_per_kg_text(tmb, weight) + " kcal/kg/day.\nClassification: "@
        + tmb_label(c)
}

impl TmbCalculator {
    /// Metabolic rate in hundredths of a kcal/day.
    pub fn calculate(data: &TmbData) -> (r: i64)
        ensures
            r == tmb_value(data.weight as int, data.height as int, data.age as int, data.gender),
    {
        let w: i128 = data.weight as i128;
        let h: i128 = data.height as i128;
        let a: i128 = data.age as i128;
        let n: i128 = match data.gender {
            Gender::Male => 88360 + 134 * w + 4800 * h - 5700 * a,
            Gender::Female => 447600 + 92 * w + 3100 * h - 4300 * a,
        };
        let r = round_div_i128(n, 10);
        proof {
            lemma_round_div_bounds(n as int, 10);
        }
        r as i64
    }

    /// The band of a rate (hundredths of a kcal/day) for a weight (hundredths
    /// of a kilogram), by the rate per kilogram.
    pub fn classify(tmb: i64, weight: u32, gender: &Gender) -> (r: TmbCategory)
        ensures
            r == tmb_category_of(tmb as int, weight as int, *gender),
    {
        let w: i64 = weight as i64;
        match gender {
            Gender::Male => {
                if tmb < 15 * w {
                    TmbCategory::VeryLow
                } else if tmb < 20 * w {
                    TmbCategory::Low
                } else if tmb < 25 * w {
                    TmbCategory::Normal
                } else if tmb < 30 * w {
                    TmbCategory::High
                } else {
                    TmbCategory::VeryHigh
                }
            },
            Gender::Female => {
                if tmb < 13 * w {
                    TmbCategory::VeryLow
                } else if tmb < 18 * w {
                    TmbCategory::Low
                } else if tmb < 23 * w {
                    TmbCategory::Normal
                } else if tmb < 28 * w {
                    TmbCategory::High
                } else {
                    TmbCategory::VeryHigh
                }
            },
        }
    }

    /// The report for a rate, the weight it is divided by, and its band.
    pub fn evaluation_result(tmb: i64, weight: u32, category: &TmbCategory) -> (r: String)
        ensures
            r@ == tmb_report(tmb as int, weight as int, *category),
    {
        let classification = match category {
            TmbCategory::VeryLow => "Very low",
            TmbCategory::Low => "Low",
            TmbCategory::Normal => "Normal",
            TmbCategory::High => "High",
            TmbCategory::VeryHigh => "Very high",
        };
        let mut text = String::from_str("Your Basal Metabolic Rate (TMB) is ");
        push_hundredths(&mut text, tmb as i128);
        text.append(" kcal/day.\nYour TMB per kg is ");
        if weight > 0 {
            let tmb_per_kg = round_div_i128(tmb as i128 * 100, weight as i128);
            proof {
                lemma_round_div_bounds(tmb * 100, weight as int);
            }
            push_hundredths(&mut text, tmb_per_kg);
        } else if tmb > 0 {
            text.append("inf");
        } else if tmb < 0 {
            text.append("-inf");
        } else {
            text.append("NaN");
        }
        text.append(" kcal/kg/day.\nClassification: ");
        text.append(classification);
        text
    }
}

/// For any weight, the rate bands cover every rate without gap or overlap:
/// each rate lies in exactly one band, the one that `classify` returns. A
/// rate exactly on a threshold belongs to the band above it.
pub proof fn lemma_tmb_bands_partition(tmb: int, weight: int, gender: Gender)
    requires
        weight >= 0,
    ensures
        forall|c: TmbCategory|
            tmb_in_band(tmb, weight, gender, c) <==> c == tmb_category_of(tmb, weight, gender),
{
}

proof fn lemma_below_scaled_threshold(a: int, aw: int, b: int, bw: int, t: int)
    requires
        aw > 0,
        bw > 0,
        a * bw <= b * aw,
        b < t * bw,
    ensures
        a < t * aw,
{
    assert(a < t * aw) by (nonlinear_arith)
        requires
            aw > 0,
            bw > 0,
            a * bw <= b * aw,
            b < t * bw,
    ;
}

/// Rate classification is monotonic in the rate per kilogram: when
/// `tmb_a / weight_a <= tmb_b / weight_b`, the first never falls in a higher
/// band than the second.
pub proof fn lemma_tmb_classify_monotonic(
    tmb_a: int,
    weight_a: int,
    tmb_b: int,
    weight_b: int,
    gender: Gender,
)
    requires
        weight_a > 0,
        weight_b > 0,
        tmb_a * weight_b <= tmb_b * weight_a,
    ensures
        tmb_category_of(tmb_a, weight_a, gender).rank() <= tmb_category_of(
            tmb_b,
            weight_b,
            gender,
        ).rank(),
{
    let (t1, t2, t3, t4) = tmb_thresholds(gender);
    if tmb_b < t1 * weight_b {
        lemma_below_scaled_threshold(tmb_a, weight_a, tmb_b, weight_b, t1);
    }
    if tmb_b < t2 * weight_b {
        lemma_below_scaled_threshold(tmb_a, weight_a, tmb_b, weight_b, t2);
    }
    if tmb_b < t3 * weight_b {
        lemma_below_scaled_threshold(tmb_a, weight_a, tmb_b, weight_b, t3);
    }
    if tmb_b < t4 * weight_b {
        lemma_below_scaled_threshold(tmb_a, weight_a, tmb_b, weight_b, t4);
    }
}

} // verus!
