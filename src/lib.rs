//! Lifecycle of a parsed SVG scene tree: construction from document bytes,
//! size query, rasterisation into a pixel buffer in blue-green-red-alpha
//! order, and release.
pub mod float_bits;
pub mod pixels;
pub mod tree;
pub mod utf8;

pub use float_bits::f32_bits_to_u32;
pub use pixels::swap_red_blue;
pub use tree::{
    free_tree, get_bounding_box, read_svg_to_tree, render_tree, BoundingBox, RenderedImage,
    SvgTree, TreeError,
};
