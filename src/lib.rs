//! Orchestration of a scripting-language playground: the staged pipeline
//! parse → analyze → lower → execute, the aggregation of analyzer findings,
//! and the rendering of diagnostic reports as plain text, ANSI or HTML.
pub mod diagnostic;
pub mod html;
pub mod pipeline;
pub mod render;
