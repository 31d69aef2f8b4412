//! Verified decision logic around a raytracing program translator: the
//! comparison of generated modules with reference modules, the fixed
//! compiler flag protocol of the raytracing runtime, the attribute variable
//! block, and the step machine that drives one translate-compare-build run.

pub mod verdict;
pub mod options;
pub mod error;
pub mod attributes;
pub mod harness;
pub mod fixture;
pub mod entry;
