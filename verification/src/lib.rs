//! Scene description parsing, scene model bookkeeping, configuration
//! resolution and render scheduling for a primary-bounce ray tracer.

pub mod config;
pub mod errors;
pub mod image_data;
pub mod logger;
pub mod model;
pub mod numeric;
pub mod parser;
pub mod render;
pub mod scene;
pub mod text;
pub mod values;
