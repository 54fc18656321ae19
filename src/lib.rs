//! Reconstruction of a colored point cloud from synchronized depth and color
//! frames: texture-coordinate decoding, color sampling with out-of-view
//! handling, a latest-value delivery slot, the viewer's retained state and the
//! acquisition loop's decisions.

pub mod texcoord;
pub mod texture;
pub mod projection;
pub mod delivery;
pub mod viewer;
pub mod acquisition;
