//! Scaled Baum-Welch training for hidden Markov models: the verified parts.
pub mod config;
pub mod control;
pub mod error;
pub mod key;
pub mod matrix;
pub mod model;
pub mod select;
pub mod text;
