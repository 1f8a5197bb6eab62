//! The field groups of an observation, and what their sub-tokens decode to.

pub mod codes;
pub mod group;
pub mod mandatory;
pub mod optional;
pub mod schema;
