//! Pixel buffers: allocation and rasterisation through the rendering engine,
//! and the reordering of each pixel's channels for the receiving side.
use vstd::prelude::*;
use resvg::tiny_skia::{Pixmap, Transform};
use resvg::usvg::Tree;

verus! {

#[verifier::external_type_specification]
#[verifier::external_body]
pub struct ExPixmap(Pixmap);

/// The bytes that a pixmap holds: premultiplied red, green, blue and alpha
/// for each pixel, row by row.
pub uninterp spec fn pixmap_bytes(p: Pixmap) -> Seq<u8>;

/// Whether the engine can hold a pixmap of this size: neither side zero, a row
/// of at most `i32::MAX` bytes, and the whole buffer addressable.
pub open spec fn pixmap_size_ok(width: u32, height: u32) -> bool {
    &&& width > 0
    &&& height > 0
    &&& 4 * width <= i32::MAX
    &&& 4 * width * height <= usize::MAX
}

/// Relies on tiny_skia::Pixmap::new: it fails exactly when `pixmap_size_ok`
/// does not hold, and otherwise holds `4 * width * height` bytes, all zero.
#[verifier::external_body]
pub(crate) fn new_pixmap(width: u32, height: u32) -> (r: Option<Pixmap>)
    ensures
        r.is_some() <==> pixmap_size_ok(width, height),
        r matches Some(p) ==> pixmap_bytes(p) == Seq::new(
            (4 * width * height) as nat,
            |i: int| 0u8,
        ),
{
    Pixmap::new(width, height)
}

/// Relies on resvg::render, drawing onto the pixmap with the identity
/// transform: it writes the pixmap's bytes in place and keeps their number.
#[verifier::external_body]
pub(crate) fn render_onto(tree: &Tree, p: &mut Pixmap)
    ensures
        pixmap_bytes(*final(p)).len() == pixmap_bytes(*old(p)).len(),
{
    resvg::render(tree, Transform::identity(), &mut p.as_mut())
}

/// Relies on tiny_skia::Pixmap::data: a copy of the bytes the pixmap holds.
#[verifier::external_body]
pub(crate) fn pixmap_data(p: &Pixmap) -> (r: Vec<u8>)
    ensures
        r@ == pixmap_bytes(*p),
{
    p.data().to_vec()
}

/// The byte at index `i` after exchanging the first and third byte of every
/// four-byte pixel.
pub open spec fn swapped_byte(src: Seq<u8>, i: int) -> u8 {
    if i % 4 == 0 {
        src[i + 2]
    } else if i % 4 == 2 {
        src[i - 2]
    } else {
        src[i]
    }
}

/// `src` with the first and third byte of every four-byte pixel exchanged.
pub open spec fn swap_red_blue_spec(src: Seq<u8>) -> Seq<u8> {
    Seq::new(src.len(), |i: int| swapped_byte(src, i))
}

/// Reorders red-green-blue-alpha pixels into blue-green-red-alpha ones (and
/// back): the first and third byte of each pixel change places, the second
/// and fourth stay, and pixels keep their number and order.
pub fn swap_red_blue(src: &[u8]) -> (r: Vec<u8>)
    requires
        src@.len() % 4 == 0,
    ensures
        r@ == swap_red_blue_spec(src@),
{
    let n = src.len();
    let mut out: Vec<u8> = Vec::with_capacity(n);
    let mut i: usize = 0;
    while i < n
        invariant
            n == src@.len(),
            n % 4 == 0,
            i % 4 == 0,
            i <= n,
            out@.len() == i,
            forall|j: int| 0 <= j < i ==> out@[j] == swapped_byte(src@, j),
        decreases n - i,
    {
        out.push(src[i + 2]);
        out.push(src[i + 1]);
        out.push(src[i]);
        out.push(src[i + 3]);
        i = i + 4;
    }
    assert(out@ =~= swap_red_blue_spec(src@));
    out
}

/// Exchanging the first and third channel twice gives the pixels back.
pub proof fn lemma_swap_red_blue_involution(src: Seq<u8>)
    requires
        src.len() % 4 == 0,
    ensures
        swap_red_blue_spec(swap_red_blue_spec(src)) == src,
{
    let once = swap_red_blue_spec(src);
    let twice = swap_red_blue_spec(once);
    assert forall|i: int| 0 <= i < src.len() implies twice[i] == src[i] by {
        if i % 4 == 0 {
            assert(once[i + 2] == src[i]);
        } else if i % 4 == 2 {
            assert(once[i - 2] == src[i]);
        }
    }
    assert(twice =~= src);
}

} // verus!
