//! Serving metrics, request planning and DeepSeek V4 runtime planning for an
//! LLM inference server.

pub mod arith;
pub mod text;
pub mod double;
pub mod double_laws;
pub mod order;
pub mod metrics;
pub mod model;
