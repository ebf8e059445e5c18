//! The scene tree handle: construction from document bytes, size query,
//! rasterisation and release.
use vstd::prelude::*;
use resvg::tiny_skia::Pixmap;
use resvg::usvg::{Error, Options, Tree};
use vstd::arithmetic::div_mod::lemma_mod_multiples_basic;
use crate::float_bits::{f32_bits_to_u32, f32_is_positive_finite, f32_to_u32_spec};
use crate::pixels::{
    new_pixmap, pixmap_bytes, pixmap_data, pixmap_size_ok, render_onto, swap_red_blue, swap_red_blue_spec,
};
use crate::utf8::{decode_utf8, is_utf8, utf8_text_of};

verus! {

#[verifier::external_type_specification]
#[verifier::external_body]
pub struct ExTree(Tree);

#[verifier::external_type_specification]
#[verifier::external_body]
pub struct ExError(Error);

/// Whether usvg, with its default options, accepts the text as a document.
pub uninterp spec fn usvg_accepts(text: Seq<char>) -> bool;

/// Relies on usvg::Tree::from_str with default options: parses a document
/// into a tree, or reports why it could not. With the options fixed, whether
/// it succeeds depends on the text alone.
#[verifier::external_body]
fn parse_tree(text: &str) -> (r: Result<Tree, Error>)
    ensures
        r.is_ok() <==> usvg_accepts(text@),
{
    Tree::from_str(text, &Options::default())
}

/// Relies on usvg::Tree::size and its width and height: the bits of two
/// values that usvg's `Size` keeps positive and finite.
#[verifier::external_body]
fn tree_size_bits(tree: &Tree) -> (r: (u32, u32))
    ensures
        f32_is_positive_finite(r.0),
        f32_is_positive_finite(r.1),
{
    let size = tree.size();
    (size.width().to_bits(), size.height().to_bits())
}

/// Why no tree could be made from a document.
pub enum TreeError {
    /// The bytes are not well-formed UTF-8.
    InvalidUtf8,
    /// The text is not a document the engine accepts.
    Parse(Error),
}

/// The intrinsic size of a tree, each side as the bits of a binary32 value.
#[derive(Clone, Copy, Debug, PartialEq, Eq, Structural)]
pub struct BoundingBox {
    pub width_bits: u32,
    pub height_bits: u32,
}

/// A rasterised tree: `width * height` pixels, row by row, four bytes each in
/// blue, green, red, alpha order.
pub struct RenderedImage {
    pub width: u32,
    pub height: u32,
    pub pixels: Vec<u8>,
}

/// A parsed scene tree with the size read from it when it was made.
pub struct SvgTree {
    tree: Tree,
    width_bits: u32,
    height_bits: u32,
}

impl SvgTree {
    /// The size that the tree was parsed with.
    pub closed spec fn bounding_box_spec(&self) -> BoundingBox {
        BoundingBox { width_bits: self.width_bits, height_bits: self.height_bits }
    }

    #[verifier::type_invariant]
    spec fn inv(&self) -> bool {
        f32_is_positive_finite(self.width_bits) && f32_is_positive_finite(self.height_bits)
    }
}

/// Decodes `bytes` as UTF-8 and parses the text with default options.
/// Fails with `InvalidUtf8` exactly when the bytes are not well-formed UTF-8,
/// and with `Parse` exactly when usvg rejects the text they encode; otherwise
/// gives a tree.
pub fn read_svg_to_tree(bytes: &[u8]) -> (r: Result<SvgTree, TreeError>)
    ensures
        r is Ok <==> is_utf8(bytes@) && usvg_accepts(utf8_text_of(bytes@)),
        r matches Err(TreeError::InvalidUtf8) <==> !is_utf8(bytes@),
        r matches Ok(t) ==> f32_is_positive_finite(t.bounding_box_spec().width_bits)
            && f32_is_positive_finite(t.bounding_box_spec().height_bits),
{
    let text = match decode_utf8(bytes) {
        Some(text) => text,
        None => {
            return Err(TreeError::InvalidUtf8);
        },
    };
    match parse_tree(text) {
        Ok(tree) => {
            let (width_bits, height_bits) = tree_size_bits(&tree);
            Ok(SvgTree { tree, width_bits, height_bits })
        },
        Err(e) => Err(TreeError::Parse(e)),
    }
}

/// The size of the tree, as read when it was parsed: both sides positive and
/// finite. The tree is only borrowed, so every call gives the same value.
pub fn get_bounding_box(tree: &SvgTree) -> (r: BoundingBox)
    ensures
        r == tree.bounding_box_spec(),
        f32_is_positive_finite(r.width_bits),
        f32_is_positive_finite(r.height_bits),
{
    proof {
        use_type_invariant(tree);
    }
    BoundingBox { width_bits: tree.width_bits, height_bits: tree.height_bits }
}

/// The pixel size of a rendering: each side of the bounding box truncated
/// toward zero to an integer.
pub open spec fn pixel_width(tree: &SvgTree) -> u32 {
    f32_to_u32_spec(tree.bounding_box_spec().width_bits)
}

/// See `pixel_width`.
pub open spec fn pixel_height(tree: &SvgTree) -> u32 {
    f32_to_u32_spec(tree.bounding_box_spec().height_bits)
}

/// Rasterises the tree at its own size with the identity transform and
/// returns the pixels in blue-green-red-alpha order: the bytes of the pixmap
/// the engine drew, red-green-blue-alpha, with the first and third of each
/// pixel exchanged. Gives `None` exactly when
/// no pixmap of the truncated size can be had (a side below one pixel, or too
/// large).
pub fn render_tree(tree: &SvgTree) -> (r: Option<RenderedImage>)
    ensures
        r.is_some() <==> pixmap_size_ok(pixel_width(tree), pixel_height(tree)),
        r matches Some(img) ==> {
            &&& img.width == pixel_width(tree)
            &&& img.height == pixel_height(tree)
            &&& img.pixels@.len() == 4 * img.width * img.height
            &&& exists|p: Pixmap| img.pixels@ == swap_red_blue_spec(#[trigger] pixmap_bytes(p))
        },
{
    let width = f32_bits_to_u32(tree.width_bits);
    let height = f32_bits_to_u32(tree.height_bits);
    let mut pixmap = match new_pixmap(width, height) {
        Some(p) => p,
        None => {
            return None;
        },
    };
    render_onto(&tree.tree, &mut pixmap);
    let native = pixmap_data(&pixmap);
    proof {
        let area = width * height;
        assert(4 * width * height == area * 4) by (nonlinear_arith)
            requires
                area == width * height,
        ;
        lemma_mod_multiples_basic(area, 4);
    }
    let pixels = swap_red_blue(native.as_slice());
    assert(pixels@ == swap_red_blue_spec(pixmap_bytes(pixmap)));
    Some(RenderedImage { width, height, pixels })
}

/// Releases the tree and everything it owns.
pub fn free_tree(tree: SvgTree) {
    // `tree` is owned here and dropped on return.
}

} // verus!
