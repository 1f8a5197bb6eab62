//! Decoder for station weather observations in the Integrated Surface
//! Database's packed tabular form.

pub mod fields;
pub mod model;
pub mod number;
pub mod units;
pub mod util;
