//! Waist-to-hip ratio.

pub mod calculator;
