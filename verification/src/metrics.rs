//! Metrics of the inference server.

pub mod histogram;
pub mod topology;
pub mod server;
pub mod exposition;
pub mod telemetry;
pub mod summary;
pub mod stats;
pub mod laws;
pub mod lines;
pub mod catalogue;
pub mod recording;
pub mod samples;
pub mod recorder_laws;
pub mod agreement;
pub mod document_laws;
