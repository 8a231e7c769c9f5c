//! The top-level pieces of a Smithy model document.

use crate::shape_id::ShapeId;
use vstd::prelude::*;

verus! {

/// The Smithy IDL version of a model.
#[derive(Debug, Clone, Copy, PartialEq, Eq, Structural)]
pub enum SmithyVersion {
    _2_0,
}

/// Model-wide metadata.
#[derive(Debug, Default)]
pub struct Metadata {
    pub suppressions: Vec<MetadataSuppression>,
}

/// A validation event suppressed for a namespace.
#[derive(Debug)]
pub struct MetadataSuppression {
    pub id: String,
    pub namespace: String,
}

/// A reference to another shape.
#[derive(Debug)]
pub struct ShapeRef {
    pub target: ShapeId,
}

} // verus!
