pub mod coordinator;
pub mod grain;
pub mod input;
pub mod output;
pub mod random;
