//! Health metrics: body mass index, basal metabolic rate, body fat percentage
//! and waist-to-hip ratio, each computed, classified and rendered as text.
//!
//! Every real-valued quantity is held as a whole number of hundredths
//! (`7050` stands for 70.50), so that each formula and each threshold is exact.

pub mod decimal;
pub mod bmi;
pub mod metabolism;
pub mod body_fat;
pub mod whr;
