//! DeepSeek V4: loading, planning and runtime state.

pub mod tensor;
pub mod quant;
pub mod load;
pub mod load_laws;
pub mod device;
pub mod scratch;
pub mod scratch_laws;
pub mod state;
pub mod switches;
pub mod counts;
pub mod mlp;
pub mod routed;
pub mod grouped;
pub mod dispatch;
pub mod flow;
pub mod expert_laws;
pub mod hyper;
pub mod config;
pub mod attention;
pub mod attention_laws;
pub mod mla;
pub mod layer;
pub mod layer_laws;
pub mod weights;
pub mod model_laws;
pub mod pass;
pub mod batch_decode;
pub mod prefill;
pub mod forward;
pub mod ranking;
pub mod json;
pub mod store;
pub mod reference;
pub mod loaders;
pub mod loader_laws;
pub mod checkpoint;
pub mod checkpoint_laws;
