//! Renderer color-state and output-negotiation vocabulary.

pub mod output;
pub mod pipeline;
