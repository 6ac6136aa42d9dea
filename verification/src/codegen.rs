//! The parts of code generation that compute on plain values.
pub mod data_type_generator;
pub mod debug;
pub mod generators;
pub mod got_layout;
