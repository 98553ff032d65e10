//! Mipmap-style quadtree pyramids of raster tiles.
//!
//! A coarser layer of a terrain dataset is built from the next finer one by
//! combining each two-by-two block of child tiles into one parent tile. Every
//! child paints one quarter of its parent through a filter that reduces each
//! two-by-two block of child pixels to a single parent pixel.
//!
//! - [`attachment`]: the formats and the geometry of tiles.
//! - [`coords`]: quadrants, tile positions and the children of a tile.
//! - [`pixel`]: pixels, and the reductions of four pixels to one.
//! - [`tile`]: tiles as images of the `image` crate.
//! - [`filter`]: painting one quarter of a parent tile from one child.
//! - [`node`]: down-sampling one parent tile from its four children.
//! - [`layer`]: the tasks of down-sampling a rectangle of tiles of one layer.

pub mod attachment;
pub mod coords;
pub mod filter;
pub mod layer;
pub mod node;
pub mod pixel;
pub mod tile;
