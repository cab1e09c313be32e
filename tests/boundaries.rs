use fourv_saude::bmi::calculator::{BmiCalculator, BmiCategory, BmiData};
use fourv_saude::body_fat::{BodyFatAgeCategory, BodyFatCalculator, BodyFatSexCategory};
use fourv_saude::metabolism::tmb::{Gender, TmbCalculator, TmbCategory};
use fourv_saude::whr::calculator::{
    Gender as WhrGender, WhrCalculator, WhrCalculatorTrait, WhrData,
};

#[test]
fn bmi_is_weight_over_height_squared_to_the_hundredth() {
    for weight in [1u32, 3000, 4999, 7000, 10001, 25000] {
        for height in [50u32, 150, 163, 175, 199, 250] {
            let bmi = BmiCalculator::calculate(&BmiData { weight, height });
            let exact = (weight as f64 / 100.0) / ((height as f64 / 100.0).powi(2));
            assert!((bmi as f64 / 100.0 - exact).abs() <= 0.005 + 1e-9);
        }
    }
}

#[test]
fn bmi_of_the_largest_weight_and_smallest_height() {
    let bmi = BmiCalculator::calculate(&BmiData { weight: u32::MAX, height: 1 });
    assert_eq!(bmi, u32::MAX as i64 * 10000);
    assert_eq!(BmiCalculator::classify(bmi), BmiCategory::ObesityGrade3);
}

#[test]
fn bmi_bands_start_at_their_thresholds() {
    assert_eq!(BmiCalculator::classify(1849), BmiCategory::Underweight);
    assert_eq!(BmiCalculator::classify(1850), BmiCategory::NormalWeight);
    assert_eq!(BmiCalculator::classify(2499), BmiCategory::NormalWeight);
    assert_eq!(BmiCalculator::classify(2500), BmiCategory::Overweight);
    assert_eq!(BmiCalculator::classify(3000), BmiCategory::ObesityGrade1);
    assert_eq!(BmiCalculator::classify(3500), BmiCategory::ObesityGrade2);
    assert_eq!(BmiCalculator::classify(3999), BmiCategory::ObesityGrade2);
    assert_eq!(BmiCalculator::classify(4000), BmiCategory::ObesityGrade3);
    assert_eq!(BmiCalculator::classify(0), BmiCategory::Underweight);
    assert_eq!(BmiCalculator::classify(-500), BmiCategory::Underweight);
}

#[test]
fn classifications_never_go_down() {
    let mut previous = BmiCalculator::classify(-100);
    let mut previous_sex = BodyFatCalculator::classify_by_sex(-100, &Gender::Female);
    let mut previous_age = BodyFatCalculator::classify_by_age(-100, 45, &Gender::Male);
    let mut previous_tmb = TmbCalculator::classify(-100, 6000, &Gender::Male);
    for v in -100i64..5000 {
        let c = BmiCalculator::classify(v);
        assert!(previous <= c);
        previous = c;
        let s = BodyFatCalculator::classify_by_sex(v, &Gender::Female);
        assert!(previous_sex <= s);
        previous_sex = s;
        let a = BodyFatCalculator::classify_by_age(v, 45, &Gender::Male);
        assert!(previous_age <= a);
        previous_age = a;
        let t = TmbCalculator::classify(v * 50, 6000, &Gender::Male);
        assert!(previous_tmb <= t);
        previous_tmb = t;
    }
    assert_eq!(previous, BmiCategory::ObesityGrade3);
    assert_eq!(previous_sex, BodyFatSexCategory::Obesity);
    assert_eq!(previous_age, BodyFatAgeCategory::VeryHigh);
    assert_eq!(previous_tmb, TmbCategory::VeryHigh);
}

#[test]
fn bmr_per_kilogram_thresholds_for_men_have_no_gap() {
    let w = 7000u32;
    let at = |per_kg: i64| TmbCalculator::classify(per_kg * w as i64, w, &Gender::Male);
    assert_eq!(at(15), TmbCategory::Low);
    assert_eq!(at(20), TmbCategory::Normal);
    assert_eq!(at(25), TmbCategory::High);
    assert_eq!(at(30), TmbCategory::VeryHigh);
    assert_eq!(TmbCalculator::classify(15 * 7000 - 1, w, &Gender::Male), TmbCategory::VeryLow);
    assert_eq!(TmbCalculator::classify(20 * 7000 - 1, w, &Gender::Male), TmbCategory::Low);
    assert_eq!(TmbCalculator::classify(25 * 7000 - 1, w, &Gender::Male), TmbCategory::Normal);
    assert_eq!(TmbCalculator::classify(30 * 7000 - 1, w, &Gender::Male), TmbCategory::High);
}

#[test]
fn bmr_per_kilogram_thresholds_for_women_have_no_gap() {
    let w = 6000u32;
    let at = |per_kg: i64| TmbCalculator::classify(per_kg * w as i64, w, &Gender::Female);
    assert_eq!(at(13), TmbCategory::Low);
    assert_eq!(at(18), TmbCategory::Normal);
    assert_eq!(at(23), TmbCategory::High);
    assert_eq!(at(28), TmbCategory::VeryHigh);
    assert_eq!(TmbCalculator::classify(13 * 6000 - 1, w, &Gender::Female), TmbCategory::VeryLow);
    assert_eq!(TmbCalculator::classify(28 * 6000 - 1, w, &Gender::Female), TmbCategory::High);
}

#[test]
fn bmr_with_zero_weight_is_unbounded_per_kilogram() {
    assert_eq!(TmbCalculator::classify(150000, 0, &Gender::Male), TmbCategory::VeryHigh);
    assert_eq!(TmbCalculator::classify(0, 0, &Gender::Female), TmbCategory::VeryHigh);
    assert_eq!(TmbCalculator::classify(-1, 0, &Gender::Female), TmbCategory::VeryLow);
}

#[test]
fn body_fat_age_limits_are_inclusive_above_low() {
    // men of 25: low 7, normal 19, high 24
    let at = |pgc: i64| BodyFatCalculator::classify_by_age(pgc, 25, &Gender::Male);
    assert_eq!(at(699), BodyFatAgeCategory::Low);
    assert_eq!(at(700), BodyFatAgeCategory::Normal);
    assert_eq!(at(1900), BodyFatAgeCategory::Normal);
    assert_eq!(at(1901), BodyFatAgeCategory::High);
    assert_eq!(at(2400), BodyFatAgeCategory::High);
    assert_eq!(at(2401), BodyFatAgeCategory::VeryHigh);
    // women of 55: low 19, normal 30, high 35
    let at = |pgc: i64| BodyFatCalculator::classify_by_age(pgc, 55, &Gender::Female);
    assert_eq!(at(1899), BodyFatAgeCategory::Low);
    assert_eq!(at(1900), BodyFatAgeCategory::Normal);
    assert_eq!(at(3000), BodyFatAgeCategory::Normal);
    assert_eq!(at(3500), BodyFatAgeCategory::High);
    assert_eq!(at(3501), BodyFatAgeCategory::VeryHigh);
}

#[test]
fn body_fat_age_groups() {
    let m = |age: u32| BodyFatCalculator::classify_by_age(800, age, &Gender::Male);
    assert_eq!(m(29), BodyFatAgeCategory::Normal);
    assert_eq!(m(30), BodyFatAgeCategory::Normal);
    assert_eq!(m(40), BodyFatAgeCategory::Low);
    assert_eq!(m(59), BodyFatAgeCategory::Low);
    // under twenty falls in the last group, as sixty and over do
    assert_eq!(m(15), BodyFatAgeCategory::Low);
    assert_eq!(BodyFatCalculator::classify_by_age(1300, 15, &Gender::Male), BodyFatAgeCategory::Normal);
    assert_eq!(BodyFatCalculator::classify_by_age(3100, 70, &Gender::Female), BodyFatAgeCategory::Normal);
    assert_eq!(BodyFatCalculator::classify_by_age(3601, 70, &Gender::Female), BodyFatAgeCategory::VeryHigh);
}

#[test]
fn body_fat_bands_by_sex() {
    assert_eq!(BodyFatCalculator::classify_by_sex(599, &Gender::Male), BodyFatSexCategory::Essential);
    assert_eq!(BodyFatCalculator::classify_by_sex(600, &Gender::Male), BodyFatSexCategory::Athlete);
    assert_eq!(BodyFatCalculator::classify_by_sex(1400, &Gender::Male), BodyFatSexCategory::Fitness);
    assert_eq!(BodyFatCalculator::classify_by_sex(1800, &Gender::Male), BodyFatSexCategory::Acceptable);
    assert_eq!(BodyFatCalculator::classify_by_sex(2500, &Gender::Male), BodyFatSexCategory::Obesity);
    assert_eq!(BodyFatCalculator::classify_by_sex(1400, &Gender::Female), BodyFatSexCategory::Athlete);
    assert_eq!(BodyFatCalculator::classify_by_sex(2100, &Gender::Female), BodyFatSexCategory::Fitness);
    assert_eq!(BodyFatCalculator::classify_by_sex(2500, &Gender::Female), BodyFatSexCategory::Acceptable);
    assert_eq!(BodyFatCalculator::classify_by_sex(3199, &Gender::Female), BodyFatSexCategory::Acceptable);
    assert_eq!(BodyFatCalculator::classify_by_sex(3200, &Gender::Female), BodyFatSexCategory::Obesity);
}

#[test]
fn whr_limits_are_strict() {
    assert!(WhrCalculator::evaluate(90, &WhrGender::Male).contains("Lower risk"));
    assert!(WhrCalculator::evaluate(91, &WhrGender::Male).contains("Higher risk"));
    assert!(WhrCalculator::evaluate(85, &WhrGender::Female).contains("Lower risk"));
    assert!(WhrCalculator::evaluate(86, &WhrGender::Female).contains("Higher risk"));
}

#[test]
fn whr_rounds_to_the_nearest_hundredth() {
    let ratio = |waist: u32, hip: u32| {
        WhrCalculator::calculate(&WhrData {
            waist_circumference: waist,
            hip_circumference: hip,
            gender: WhrGender::Female,
        })
    };
    assert_eq!(ratio(10000, 30000), 33);
    assert_eq!(ratio(20000, 30000), 67);
    assert_eq!(ratio(1, 200), 1);
    assert_eq!(ratio(0, 9500), 0);
    assert_eq!(ratio(u32::MAX, 1), u32::MAX as i64 * 100);
}
