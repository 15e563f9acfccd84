//! The orchestration layer around the transport: content classification,
//! experts and their registry, and the content translator.

pub mod orchestrator;
pub mod translator;
pub mod types;
pub mod agent;
pub mod analyst;
pub mod artist;
pub mod experts;
pub mod producer;
pub mod scribe;
