pub mod types;
pub mod stake;
pub mod reward;
pub mod reward_calculator;
pub mod commitment;
pub mod laws;
