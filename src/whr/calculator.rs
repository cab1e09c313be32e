//! Waist-to-hip ratio (WHR) and the cardiovascular risk it indicates.

use vstd::prelude::*;
use crate::decimal::{
    round_div, round_div_i128, lemma_round_div_bounds, hundredths_text, push_hundredths,
};

verus! {

/// A person's gender, which selects the risk limit.
#[derive(Debug, Clone, Copy, PartialEq, Eq)]
pub enum Gender {
    Male,
    Female,
}

/// Input of the waist-to-hip ratio.
pub struct WhrData {
    /// Waist circumference in hundredths of a centimetre.
    pub waist_circumference: u32,
    /// Hip circumference in hundredths of a centimetre.
    pub hip_circumference: u32,
    pub gender: Gender,
}

/// The ratio in hundredths, to the nearest hundredth.
pub open spec fn whr_value(waist: int, hip: int) -> int {
    round_div(waist * 100, hip)
}

/// The ratio (in hundredths) above which the risk is higher: 0.90 for men,
/// 0.85 for women.
pub open spec fn whr_limit(gender: Gender) -> int {
    match gender {
        Gender::Male => 90,
        Gender::Female => 85,
    }
}

/// Whether a ratio (in hundredths) means a higher risk: strictly above the limit.
pub open spec fn whr_higher_risk(whr: int, gender: Gender) -> bool {
    whr > whr_limit(gender)
}

/// The condition line for a gender and a risk.
pub open spec fn whr_condition(gender: Gender, higher: bool) -> Seq<char> {
    match gender {
        Gender::Male => if higher {
            "Higher risk for cardiovascular diseases (men, WHR > 0.90)."@
        } else {
            "Lower risk for cardiovascular diseases (men, WHR ≤ 0.90)."@
        },
        Gender::Female => if higher {
            "Higher risk for cardiovascular diseases (women, WHR > 0.85)."@
        } else {
            "Lower risk for cardiovascular diseases (women, WHR ≤ 0.85)."@
        },
    }
}

/// The report: the ratio with two decimals, then the risk.
pub open spec fn whr_report(whr: int, gender: Gender) -> Seq<char> {
    "WHR: "@ + hundredths_text(whr) + "\nCondition: "@ + whr_condition(
        gender,
        whr_higher_risk(whr, gender),
    )
}

/// Calculation of the ratio and of its risk message.
pub trait WhrCalculatorTrait {
    /// The ratio of the circumferences, in hundredths.
    fn calculate(data: &WhrData) -> (r: i64)
        requires
            data.hip_circumference > 0,
        ensures
            r == whr_value(data.waist_circumference as int, data.hip_circumference as int),
    ;

    /// The report for a ratio given in hundredths.
    fn evaluate(whr: i64, gender: &Gender) -> (r: String)
        ensures
            r@ == whr_report(whr as int, *gender),
    ;
}

/// The waist-to-hip ratio calculator.
pub struct WhrCalculator;

impl WhrCalculatorTrait for WhrCalculator {
    fn calculate(data: &WhrData) -> (r: i64) {
        let n: i128 = data.waist_circumference as i128 * 100;
        let r = round_div_i128(n, data.hip_circumference as i128);
        proof {
            lemma_round_div_bounds(n as int, data.hip_circumference as int);
        }
        r as i64
    }

    fn evaluate(whr: i64, gender: &Gender) -> (r: String) {
        let condition = match gender {
            Gender::Male => if whr > 90 {
                "Higher risk for cardiovascular diseases (men, WHR > 0.90)."
            } else {
                "Lower risk for cardiovascular diseases (men, WHR ≤ 0.90)."
            },
            Gender::Female => if whr > 85 {
                "Higher risk for cardiovascular diseases (women, WHR > 0.85)."
            } else {
                "Lower risk for cardiovascular diseases (women, WHR ≤ 0.85)."
            },
        };
        let mut text = String::from_str("WHR: ");
        push_hundredths(&mut text, whr as i128);
        text.append("\nCondition: ");
        text.append(condition);
        text
    }
}

/// The risk limit is strict: a ratio equal to the limit is the lower risk,
/// and one a hundredth above it is the higher risk.
pub proof fn lemma_whr_limit_is_strict(gender: Gender)
    ensures
        !whr_higher_risk(whr_limit(gender), gender),
        whr_higher_risk(whr_limit(gender) + 1, gender),
{
}

/// The risk is monotonic: if a ratio means a higher risk, so does any larger one.
pub proof fn lemma_whr_risk_monotonic(a: int, b: int, gender: Gender)
    requires
        a <= b,
        whr_higher_risk(a, gender),
    ensures
        whr_higher_risk(b, gender),
{
}

} // verus!
