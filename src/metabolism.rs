//! Basal metabolic rate.

pub mod tmb;
