//! Partial evaluation and rendering of endpoint-resolution rule sets.

pub mod endpoint_rules;
pub mod eval;
pub mod filter;
pub mod laws;
pub mod model;
pub mod outside;
pub mod render;
pub mod shape_id;
pub mod shapes;
pub mod text;
pub mod traits;
pub mod value;
