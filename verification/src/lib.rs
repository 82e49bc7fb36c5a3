pub mod contract;
pub mod invariants;
pub mod laws;
pub mod model;
pub mod operations;
pub mod seqs;
pub mod types;
