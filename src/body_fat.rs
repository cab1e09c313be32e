//! Body fat percentage (PGC) by the Deurenberg formula
//! `1.20·BMI + 0.23·age - 10.8·sex - 5.4` (sex is 1 for men, 0 for women),
//! classified by gender alone and by gender and age group.

use vstd::prelude::*;
use crate::bmi::calculator::{BmiCalculator, BmiData, bmi_value};
use crate::decimal::{
    round_div, round_div_i128, lemma_round_div_nearest, hundredths_text, nat_text,
    push_hundredths, push_nat,
};
use crate::metabolism::tmb::Gender;

verus! {

/// Input of the body fat percentage.
pub struct BodyFatData {
    /// Weight in hundredths of a kilogram.
    pub weight: u32,
    /// Height in hundredths of a metre.
    pub height: u32,
    /// Age in years.
    pub age: u32,
    pub gender: Gender,
}

/// Bands of the body fat percentage by gender, from the lowest up.
#[derive(Debug, Clone, Copy, PartialEq, Eq, PartialOrd, Ord)]
pub enum BodyFatSexCategory {
    Essential,
    Athlete,
    Fitness,
    Acceptable,
    Obesity,
}

/// Bands of the body fat percentage by gender and age group, from the lowest up.
#[derive(Debug, Clone, Copy, PartialEq, Eq, PartialOrd, Ord)]
pub enum BodyFatAgeCategory {
    Low,
    Normal,
    High,
    VeryHigh,
}

impl BodyFatSexCategory {
    /// Position of the band in ascending order, from 0.
    pub open spec fn rank(self) -> nat {
        match self {
            BodyFatSexCategory::Essential => 0,
            BodyFatSexCategory::Athlete => 1,
            BodyFatSexCategory::Fitness => 2,
            BodyFatSexCategory::Acceptable => 3,
            BodyFatSexCategory::Obesity => 4,
        }
    }
}

impl BodyFatAgeCategory {
    /// Position of the band in ascending order, from 0.
    pub open spec fn rank(self) -> nat {
        match self {
            BodyFatAgeCategory::Low => 0,
            BodyFatAgeCategory::Normal => 1,
            BodyFatAgeCategory::High => 2,
            BodyFatAgeCategory::VeryHigh => 3,
        }
    }
}

/// 1 for men, 0 for women.
pub open spec fn sex_indicator(gender: Gender) -> int {
    match gender {
        Gender::Male => 1,
        Gender::Female => 0,
    }
}

/// Body fat percentage in hundredths, to the nearest hundredth, for a BMI in
/// hundredths: ten times it is `12·bmi + 230·age - 10800·sex - 5400`.
pub open spec fn pgc_value(bmi: int, age: int, gender: Gender) -> int {
    round_div(12 * bmi + 230 * age - 10800 * sex_indicator(gender) - 5400, 10)
}

/// The four thresholds (percent, in hundredths) that separate the bands by gender.
pub open spec fn pgc_sex_thresholds(gender: Gender) -> (int, int, int, int) {
    match gender {
        Gender::Male => (600, 1400, 1800, 2500),
        Gender::Female => (1400, 2100, 2500, 3200),
    }
}

/// The band by gender: the first threshold that the percentage is under.
pub open spec fn pgc_sex_category_of(pgc: int, gender: Gender) -> BodyFatSexCategory {
    let (t1, t2, t3, t4) = pgc_sex_thresholds(gender);
    if pgc < t1 {
        BodyFatSexCategory::Essential
    } else if pgc < t2 {
        BodyFatSexCategory::Athlete
    } else if pgc < t3 {
        BodyFatSexCategory::Fitness
    } else if pgc < t4 {
        BodyFatSexCategory::Acceptable
    } else {
        BodyFatSexCategory::Obesity
    }
}

/// The half-open interval of percentages that band `c` covers for a gender.
pub open spec fn pgc_in_sex_band(pgc: int, gender: Gender, c: BodyFatSexCategory) -> bool {
    let (t1, t2, t3, t4) = pgc_sex_thresholds(gender);
    match c {
        BodyFatSexCategory::Essential => pgc < t1,
        BodyFatSexCategory::Athlete => t1 <= pgc < t2,
        BodyFatSexCategory::Fitness => t2 <= pgc < t3,
        BodyFatSexCategory::Acceptable => t3 <= pgc < t4,
        BodyFatSexCategory::Obesity => t4 <= pgc,
    }
}

/// The limits `(low, normal, high)` (percent, in hundredths) for a gender and
/// an age; the groups are 20-29, 30-39, 40-49, 50-59, and any other age with
/// 60 and over.
pub open spec fn pgc_age_limits(age: int, gender: Gender) -> (int, int, int) {
    match gender {
        Gender::Male => if 20 <= age <= 29 {
            (700, 1900, 2400)
        } else if 30 <= age <= 39 {
            (800, 2000, 2500)
        } else if 40 <= age <= 49 {
            (1000, 2200, 2700)
        } else if 50 <= age <= 59 {
            (1100, 2300, 2800)
        } else {
            (1300, 2500, 3000)
        },
        Gender::Female => if 20 <= age <= 29 {
            (1600, 2700, 3200)
        } else if 30 <= age <= 39 {
            (1700, 2800, 3300)
        } else if 40 <= age <= 49 {
            (1800, 2900, 3400)
        } else if 50 <= age <= 59 {
            (1900, 3000, 3500)
        } else {
            (2000, 3100, 3600)
        },
    }
}

/// The band by gender and age: under `low` is `Low`; up to `normal` included
/// is `Normal`; up to `high` included is `High`; above is `VeryHigh`.
pub open spec fn pgc_age_category_of(pgc: int, age: int, gender: Gender) -> BodyFatAgeCategory {
    let (low, normal, high) = pgc_age_limits(age, gender);
    if pgc < low {
        BodyFatAgeCategory::Low
    } else if pgc <= normal {
        BodyFatAgeCategory::Normal
    } else if pgc <= high {
        BodyFatAgeCategory::High
    } else {
        BodyFatAgeCategory::VeryHigh
    }
}

/// The interval of percentages that band `c` covers for an age and gender.
pub open spec fn pgc_in_age_band(pgc: int, age: int, gender: Gender, c: BodyFatAgeCategory) -> bool {
    let (low, normal, high) = pgc_age_limits(age, gender);
    match c {
        BodyFatAgeCategory::Low => pgc < low,
        BodyFatAgeCategory::Normal => low <= pgc <= normal,
        BodyFatAgeCategory::High => normal < pgc <= high,
        BodyFatAgeCategory::VeryHigh => high < pgc,
    }
}

pub open spec fn gender_label(gender: Gender) -> Seq<char> {
    match gender {
        Gender::Male => "male"@,
        Gender::Female => "female"@,
    }
}

pub open spec fn sex_category_label(c: BodyFatSexCategory) -> Seq<char> {
    match c {
        BodyFatSexCategory::Essential => "Essential to life"@,
        BodyFatSexCategory::Athlete => "Athlete"@,
        BodyFatSexCategory::Fitness => "Fitness"@,
        BodyFatSexCategory::Acceptable => "Acceptable"@,
        BodyFatSexCategory::Obesity => "Obesity"@,
    }
}

pub open spec fn age_category_label(c: BodyFatAgeCategory) -> Seq<char> {
    match c {
        BodyFatAgeCategory::Low => "Low"@,
        BodyFatAgeCategory::Normal => "Normal"@,
        BodyFatAgeCategory::High => "High"@,
        BodyFatAgeCategory::VeryHigh => "Very High"@,
    }
}

/// The two-line report of both classifications.
pub open spec fn pgc_report(
    gender: Gender,
    age: nat,
    sex_category: BodyFatSexCategory,
    age_category: BodyFatAgeCategory,
) -> Seq<char> {
    "Your Body Fat Percentage (PGC), sex ["@ + gender_label(gender) + "] is: "@
        + sex_category_label(sex_category) + "\nYour PGC for sex ["@ + gender_label(gender)
        + "] and age group ["@ + nat_text(age) + "] (OMC Standard) is: "@ + age_category_label(
        age_category,
    )
}

/// The simplified BMI condition: 0 under 18.50, 1 under 25.00, 2 under 30.00,
/// 3 from there up; the same thresholds for both genders.
pub open spec fn bmi_condition(bmi: int) -> nat {
    if bmi < 1850 {
        0
    } else if bmi < 2500 {
        1
    } else if bmi < 3000 {
        2
    } else {
        3
    }
}

pub open spec fn bmi_condition_label(condition: nat) -> Seq<char> {
    if condition == 0 {
        "Underweight"@
    } else if condition == 1 {
        "Normal weight"@
    } else if condition == 2 {
        "Overweight"@
    } else {
        "Obese"@
    }
}

/// The simplified BMI report: the value with two decimals, then the condition.
pub open spec fn bmi_condition_report(bmi: int) -> Seq<char> {
    "BMI: "@ + hundredths_text(bmi) + "\nCondition: "@ + bmi_condition_label(bmi_condition(bmi))
}

/// Calculation and classification of the body fat percentage.
pub struct BodyFatCalculator;

impl BodyFatCalculator {
    /// BMI in hundredths of the weight and height of the input.
    pub fn calculate_bmi(data: &BodyFatData) -> (r: i64)
        requires
            data.height > 0,
        ensures
            r == bmi_value(data.weight as int, data.height as int),
    {
        let bmi_data = BmiData { weight: data.weight, height: data.height };
        BmiCalculator::calculate(&bmi_data)
    }

    /// Body fat percentage in hundredths for a BMI in hundredths.
    /// The BMI is bounded so that the result fits in 64 bits.
    pub fn calculate_pgc(bmi: i64, age: u32, gender: &Gender) -> (r: i64)
        requires
            -(i64::MAX / 2) <= bmi <= i64::MAX / 2,
        ensures
            r == pgc_value(bmi as int, age as int, *gender),
    {
        let sex: i128 = match gender {
            Gender::Male => 1,
            Gender::Female => 0,
        };
        let n: i128 = 12 * (bmi as i128) + 230 * (age as i128) - 10800 * sex - 5400;
        let r = round_div_i128(n, 10);
        proof {
            lemma_round_div_nearest(n as int, 10);
        }
        r as i64
    }

    /// The band of a percentage (in hundredths) by gender.
    pub fn classify_by_sex(pgc: i64, gender: &Gender) -> (r: BodyFatSexCategory)
        ensures
            r == pgc_sex_category_of(pgc as int, *gender),
    {
        match gender {
            Gender::Male => {
                if pgc < 600 {
                    BodyFatSexCategory::Essential
                } else if pgc < 1400 {
                    BodyFatSexCategory::Athlete
                } else if pgc < 1800 {
                    BodyFatSexCategory::Fitness
                } else if pgc < 2500 {
                    BodyFatSexCategory::Acceptable
                } else {
                    BodyFatSexCategory::Obesity
                }
            },
            Gender::Female => {
                if pgc < 1400 {
                    BodyFatSexCategory::Essential
                } else if pgc < 2100 {
                    BodyFatSexCategory::Athlete
                } else if pgc < 2500 {
                    BodyFatSexCategory::Fitness
                } else if pgc < 3200 {
                    BodyFatSexCategory::Acceptable
                } else {
                    BodyFatSexCategory::Obesity
                }
            },
        }
    }

    /// The band of a percentage (in hundredths) by gender and age group.
    pub fn classify_by_age(pgc: i64, age: u32, gender: &Gender) -> (r: BodyFatAgeCategory)
        ensures
            r == pgc_age_category_of(pgc as int, age as int, *gender),
    {
        let (low, normal, high): (i64, i64, i64) = match gender {
            Gender::Male => if 20 <= age && age <= 29 {
                (700, 1900, 2400)
            } else if 30 <= age && age <= 39 {
                (800, 2000, 2500)
            } else if 40 <= age && age <= 49 {
                (1000, 2200, 2700)
            } else if 50 <= age && age <= 59 {
                (1100, 2300, 2800)
            } else {
                (1300, 2500, 3000)
            },
            Gender::Female => if 20 <= age && age <= 29 {
                (1600, 2700, 3200)
            } else if 30 <= age && age <= 39 {
                (1700, 2800, 3300)
            } else if 40 <= age && age <= 49 {
                (1800, 2900, 3400)
            } else if 50 <= age && age <= 59 {
                (1900, 3000, 3500)
            } else {
                (2000, 3100, 3600)
            },
        };
        if pgc < low {
            BodyFatAgeCategory::Low
        } else if pgc <= normal {
            BodyFatAgeCategory::Normal
        } else if pgc <= high {
            BodyFatAgeCategory::High
        } else {
            BodyFatAgeCategory::VeryHigh
        }
    }

    /// The two-line report of both classifications; the percentage itself is
    /// not shown.
    pub fn evaluation_result(
        pgc: i64,
        gender: &Gender,
        age: u32,
        sex_category: &BodyFatSexCategory,
        age_category: &BodyFatAgeCategory,
    ) -> (r: String)
        ensures
            r@ == pgc_report(*gender, age as nat, *sex_category, *age_category),
    {
        let sex_str = match gender {
            Gender::Male => "male",
            Gender::Female => "female",
        };
        let sex_class = match sex_category {
            BodyFatSexCategory::Essential => "Essential to life",
            BodyFatSexCategory::Athlete => "Athlete",
            BodyFatSexCategory::Fitness => "Fitness",
            BodyFatSexCategory::Acceptable => "Acceptable",
            BodyFatSexCategory::Obesity => "Obesity",
        };
        let age_class = match age_category {
            BodyFatAgeCategory::Low => "Low",
            BodyFatAgeCategory::Normal => "Normal",
            BodyFatAgeCategory::High => "High",
            BodyFatAgeCategory::VeryHigh => "Very High",
        };
        let mut text = String::from_str("Your Body Fat Percentage (PGC), sex [");
        text.append(sex_str);
        text.append("] is: ");
        text.append(sex_class);
        text.append("\nYour PGC for sex [");
        text.append(sex_str);
        text.append("] and age group [");
        push_nat(&mut text, age as u128);
        text.append("] (OMC Standard) is: ");
        text.append(age_class);
        text
    }

    /// The simplified report of a BMI (in hundredths): its value and one of
    /// four conditions, with the same thresholds for both genders.
    pub fn evaluate(bmi: i64, gender: &Gender) -> (r: String)
        ensures
            r@ == bmi_condition_report(bmi as int),
    {
        let condition = if bmi < 1850 {
            "Underweight"
        } else if bmi < 2500 {
            "Normal weight"
        } else if bmi < 3000 {
            "Overweight"
        } else {
            "Obese"
        };
        let mut text = String::from_str("BMI: ");
        push_hundredths(&mut text, bmi as i128);
        text.append("\nCondition: ");
        text.append(condition);
        text
    }
}

/// The bands by gender cover every percentage without gap or overlap: each
/// value lies in exactly one band, the one that `classify_by_sex` returns.
pub proof fn lemma_pgc_sex_bands_partition(pgc: int, gender: Gender)
    ensures
        forall|c: BodyFatSexCategory|
            pgc_in_sex_band(pgc, gender, c) <==> c == pgc_sex_category_of(pgc, gender),
{
}

/// Classification by gender is monotonic: a larger percentage never falls in
/// a lower band.
pub proof fn lemma_pgc_sex_classify_monotonic(a: int, b: int, gender: Gender)
    requires
        a <= b,
    ensures
        pgc_sex_category_of(a, gender).rank() <= pgc_sex_category_of(b, gender).rank(),
{
}

/// For each age and gender the bands by age group cover every percentage
/// without gap or overlap: each value lies in exactly one band, the one that
/// `classify_by_age` returns.
pub proof fn lemma_pgc_age_bands_partition(pgc: int, age: int, gender: Gender)
    ensures
        forall|c: BodyFatAgeCategory|
            pgc_in_age_band(pgc, age, gender, c) <==> c == pgc_age_category_of(pgc, age, gender),
{
}

/// Classification by age group is monotonic for a fixed age and gender.
pub proof fn lemma_pgc_age_classify_monotonic(a: int, b: int, age: int, gender: Gender)
    requires
        a <= b,
    ensures
        pgc_age_category_of(a, age, gender).rank() <= pgc_age_category_of(b, age, gender).rank(),
{
}

/// The limits of an age group classify as the comparisons say: a value equal
/// to `low` is `Normal` (not `Low`), one equal to `normal` is still `Normal`,
/// and one equal to `high` is still `High`.
pub proof fn lemma_pgc_age_limits_boundaries(age: int, gender: Gender)
    ensures
        ({
            let (low, normal, high) = pgc_age_limits(age, gender);
            &&& pgc_age_category_of(low, age, gender) == BodyFatAgeCategory::Normal
            &&& pgc_age_category_of(normal, age, gender) == BodyFatAgeCategory::Normal
            &&& pgc_age_category_of(high, age, gender) == BodyFatAgeCategory::High
        }),
{
}

/// The simplified BMI condition is monotonic: a larger BMI never has a
/// lower condition.
pub proof fn lemma_bmi_condition_monotonic(a: int, b: int)
    requires
        a <= b,
    ensures
        bmi_condition(a) <= bmi_condition(b),
{
}

} // verus!
