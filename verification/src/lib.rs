//! Column-value redaction for a database anonymization pipeline.

pub mod transformer;
pub mod types;
