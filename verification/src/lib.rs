//! Topology checks, radial measurement and pipeline sequencing for resizing a
//! ring band mesh to a target inside diameter.
//!
//! Coordinates are carried as binary64 bit patterns (`u64`), so that every
//! decision the library takes on them is stated and proved over integers.

pub mod binary64;
pub mod loader;
pub mod mesh;
pub mod naming;
pub mod pipeline;
pub mod radial;
pub mod statements;
pub mod topology;
