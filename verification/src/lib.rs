//! Editing of Tiled tile maps: the tile-grid text codec, the tile-index
//! remapping operations, and the projection of a map document into its
//! XML-shaped or JSON-shaped field tree.

pub mod decimal;
pub mod format;
pub mod gid;
pub mod grid;
pub mod model;
pub mod node;
pub mod records;
pub mod remap;
pub mod render;
pub mod text;
