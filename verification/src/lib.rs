//! Core of a proxy that serves an OpenAI style generation API from a ComfyUI backend.
pub mod assets;
pub mod codec;
pub mod encoding;
pub mod error;
pub mod generation;
pub mod headers;
pub mod job;
pub mod jobs;
pub mod json;
pub mod laws;
pub mod nodes;
pub mod payload;
pub mod queue;
pub mod text;
pub mod workflows;
pub mod ws;
