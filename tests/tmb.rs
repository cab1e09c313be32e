use fourv_saude::metabolism::tmb::{Gender, TmbCalculator, TmbCategory, TmbData};

fn as_units(hundredths: i64) -> f64 {
    hundredths as f64 / 100.0
}

#[test]
fn tmb_test_calculate_male() {
    let data = TmbData { weight: 7000, height: 175, age: 25, gender: Gender::Male };
    let tmb = TmbCalculator::calculate(&data);
    // 88.36 + 13.4 * 70 + 4.8 * 175 - 5.7 * 25 = 1723.86
    assert!((as_units(tmb) - 1723.86).abs() < 0.1);
}

#[test]
fn tmb_test_calculate_female() {
    let data = TmbData { weight: 6000, height: 165, age: 30, gender: Gender::Female };
    let tmb = TmbCalculator::calculate(&data);
    // 447.6 + 9.2 * 60 + 3.1 * 165 - 4.3 * 30 = 1382.1
    assert!((as_units(tmb) - 1382.1).abs() < 0.1);
}

#[test]
fn test_classify_male() {
    // 1723.86 / 70 = 24.63, which is under 25
    let category = TmbCalculator::classify(172386, 7000, &Gender::Male);
    assert_eq!(category, TmbCategory::Normal);
}

#[test]
fn test_classify_female() {
    // 1382.1 / 60 = 23.035, which is from 23 up
    let category = TmbCalculator::classify(138210, 6000, &Gender::Female);
    assert_eq!(category, TmbCategory::High);
}

#[test]
fn tmb_test_evaluation_result() {
    let result = TmbCalculator::evaluation_result(172386, 7000, &TmbCategory::Normal);
    let expected = "Your Basal Metabolic Rate (TMB) is 1723.86 kcal/day.\n\
                    Your TMB per kg is 24.63 kcal/kg/day.\n\
                    Classification: Normal";
    assert_eq!(result, expected);
}
