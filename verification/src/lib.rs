//! Static documentation-site generation: a typed HTML view tree is rendered
//! from a documentation summary, sanitized of generation-time artifacts, and
//! serialized to the final HTML text.

pub mod model;
pub mod html;
pub mod sanitize;
pub mod render;
pub mod generator;
pub mod laws;
