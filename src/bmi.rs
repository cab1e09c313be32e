//! Body mass index.

pub mod calculator;
