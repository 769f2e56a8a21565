//! What cuts across the stages.

pub mod policies;
