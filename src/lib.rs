//! Addition of two 32-bit signed integers with a fixed, documented overflow policy.
pub mod adder;
