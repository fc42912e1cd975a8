//! What the scheduler hands to a model, and how a model routes it.

pub mod requests;
pub mod batching;
pub mod generation_state;
pub mod deepseek;
