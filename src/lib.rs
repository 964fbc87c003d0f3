//! Ownership and error discipline for a native ray-tracing kernel: error
//! translation, the sphere-geometry build protocol, and the scene lifecycle,
//! as verified decisions over the kernel's reports.
use vstd::prelude::*;

pub mod error;
pub mod sphere;
pub mod scene;

verus! {

} // verus!
