//! Verified building blocks of a coverage-guided fuzzer: hit-count
//! classification, coverage maps and their feedbacks, corpora and
//! schedulers, token dictionaries and evaluation results.

pub mod collections;
pub mod common;
pub mod controllers;
pub mod corpus;
pub mod error;
pub mod executors;
pub mod feedbacks;
pub mod fuzzers;
pub mod inputs;
pub mod launchers;
pub mod monitors;
pub mod mutators;
pub mod observers;
pub mod paths;
pub mod rands;

pub use error::Error;
