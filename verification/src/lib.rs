//! Core logic for a triplanar texture-splatting material: a weight codec that
//! packs four per-vertex blend-weight lanes into one 32-bit attribute value,
//! load trackers that follow the convergence of independently loading layer
//! images, and the merge that stacks converged layers into a single image.
//!
//! Everything that talks to a rendering host (asset I/O, GPU resources, the
//! entity store) stays outside this crate; the functions here work on plain
//! values that such a host hands in and takes back.

pub mod image;
pub mod layers;
pub mod loading;
pub mod material;
pub mod weights;
