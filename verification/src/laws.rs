//! What the library promises, stated of what goes in and what comes out.
pub mod assets;
pub mod encoding;
pub mod generation;
pub mod headers;
pub mod job;
pub mod json;
pub mod nodes;
pub mod payload;
pub mod queue;
pub mod text;
pub mod workflows;
pub mod ws;
