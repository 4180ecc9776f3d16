//! The vector renderer, as this crate uses it.
//!
//! Everything here is a statement about the `resvg` crate, and about `usvg`
//! and `tiny_skia` as it re-exports them, that the verifier takes on trust.

use resvg::tiny_skia::{IntSize, Pixmap, Transform};
use resvg::usvg;
use resvg::usvg::{ImageRendering, Options, ShapeRendering, TextRendering, Tree};
use vstd::prelude::*;

verus! {

#[verifier::external_type_specification]
#[verifier::external_body]
pub struct ExTree(Tree);

#[verifier::external_type_specification]
#[verifier::external_body]
pub struct ExPixmap(Pixmap);

#[verifier::external_type_specification]
#[verifier::external_body]
pub struct ExSvgError(usvg::Error);

/// The text that `usvg::Error` displays.
pub uninterp spec fn spec_svg_error_text(error: usvg::Error) -> Seq<char>;

/// `Display` of `usvg::Error`, through `to_string`.
#[verifier::external_body]
pub(crate) fn svg_error_text(error: &usvg::Error) -> (text: String)
    ensures
        text@ == spec_svg_error_text(*error),
{
    error.to_string()
}

/// Whether `outcome` is something that `usvg::Tree::from_data` may return
/// for the bytes of a document, parsed with `width` by `height` as the size
/// of a document that gives none.
pub uninterp spec fn may_parse(
    svg: Seq<u8>,
    width: u32,
    height: u32,
    outcome: Result<Tree, usvg::Error>,
) -> bool;

/// The error with which a document fails to parse, if it fails. The files
/// that a document refers to change the images of its tree, never whether it
/// parses: the error depends on the bytes and the size alone.
pub open spec fn parse_failure(svg: Seq<u8>, width: u32, height: u32) -> Option<usvg::Error> {
    if exists|error: usvg::Error| may_parse(svg, width, height, Err::<Tree, usvg::Error>(error)) {
        Some(
            choose|error: usvg::Error|
                may_parse(svg, width, height, Err::<Tree, usvg::Error>(error)),
        )
    } else {
        None
    }
}

/// `usvg::Tree::from_data` with the crate's default options, but for the
/// rendering modes, which are set to geometric precision for shapes,
/// legibility for text and quality for images, and for the size taken for a
/// document that gives none, which is `width` by `height`. The resolution is
/// the default one of 96 DPI.
///
/// A document may refer to files, so the tree is not the same wherever it is
/// parsed; whether it parses, and with what error it fails, is.
#[verifier::external_body]
pub(crate) fn parse_tree(svg: &[u8], width: u32, height: u32) -> (tree: Result<Tree, usvg::Error>)
    requires
        width > 0,
        height > 0,
    ensures
        may_parse(svg@, width, height, tree),
        match tree {
            Ok(_) => parse_failure(svg@, width, height) is None,
            Err(error) => parse_failure(svg@, width, height) == Some(error),
        },
{
    let mut options = Options::default();
    options.shape_rendering = ShapeRendering::GeometricPrecision;
    options.text_rendering = TextRendering::OptimizeLegibility;
    options.image_rendering = ImageRendering::OptimizeQuality;
    options.default_size = IntSize::from_wh(width, height).unwrap().to_size();
    Tree::from_data(svg, &options)
}

/// The size of a parsed document in whole pixels: what `Tree::size` gives,
/// rounded by `Size::to_int_size`.
pub uninterp spec fn tree_size(tree: Tree) -> (u32, u32);

/// `Tree::size`, then `Size::to_int_size`, which rounds each side to the
/// nearest whole number and never below 1.
#[verifier::external_body]
pub(crate) fn natural_size(tree: &Tree) -> (size: (u32, u32))
    ensures
        size == tree_size(*tree),
        size.0 > 0,
        size.1 > 0,
{
    tree.size().to_int_size().dimensions()
}

/// What `IntSize::scale_to` makes of a size of `natural` scaled to `bounds`.
pub uninterp spec fn fitted(natural: (u32, u32), bounds: (u32, u32)) -> (u32, u32);

/// `IntSize::scale_to`: `natural` scaled, at its aspect ratio, to `bounds`.
/// Each side of the result is at least 1, as in every `IntSize`.
#[verifier::external_body]
pub(crate) fn fit_within(natural: (u32, u32), bounds: (u32, u32)) -> (size: (u32, u32))
    requires
        natural.0 > 0,
        natural.1 > 0,
        bounds.0 > 0,
        bounds.1 > 0,
    ensures
        size == fitted(natural, bounds),
        size.0 > 0,
        size.1 > 0,
{
    let from = IntSize::from_wh(natural.0, natural.1).unwrap();
    let to = IntSize::from_wh(bounds.0, bounds.1).unwrap();
    from.scale_to(to).dimensions()
}

/// The width in pixels that `Pixmap::width` reports.
pub uninterp spec fn pixmap_width(pixmap: Pixmap) -> u32;

/// The height in pixels that `Pixmap::height` reports.
pub uninterp spec fn pixmap_height(pixmap: Pixmap) -> u32;

/// Whether there is a pixel buffer of a size: neither side is zero, a row of
/// four bytes to the pixel is no longer than `i32::MAX` bytes, and the bytes
/// of all rows can be counted in a `usize`.
pub open spec fn pixmap_fits(width: u32, height: u32) -> bool {
    &&& width > 0
    &&& height > 0
    &&& 4 * width <= i32::MAX
    &&& (height - 1) * (4 * width) + 4 * width <= usize::MAX
}

/// The buffer that `Pixmap::new` gives for a size that fits: every pixel
/// transparent black.
pub uninterp spec fn blank_pixmap(width: u32, height: u32) -> Pixmap;

/// `Pixmap::new`: a transparent pixel buffer of exactly the size asked for,
/// or none where the size does not fit. Like every allocation, the buffer has
/// to find room in memory.
#[verifier::external_body]
pub(crate) fn new_pixmap(width: u32, height: u32) -> (pixmap: Option<Pixmap>)
    ensures
        pixmap is Some <==> pixmap_fits(width, height),
        pixmap matches Some(buffer) ==> buffer == blank_pixmap(width, height) && pixmap_width(
            buffer,
        ) == width && pixmap_height(buffer) == height,
{
    Pixmap::new(width, height)
}

/// `Pixmap::width`.
#[verifier::external_body]
pub(crate) fn width_of_pixmap(pixmap: &Pixmap) -> (width: u32)
    ensures
        width == pixmap_width(*pixmap),
{
    pixmap.width()
}

/// `Pixmap::height`.
#[verifier::external_body]
pub(crate) fn height_of_pixmap(pixmap: &Pixmap) -> (height: u32)
    ensures
        height == pixmap_height(*pixmap),
{
    pixmap.height()
}

/// Whether `after` is something that `resvg::render` may make of the buffer
/// `before` when it draws the document onto it, scaled on each axis by the
/// quotient of `scaled` by `natural`.
pub uninterp spec fn may_draw(
    tree: Tree,
    natural: (u32, u32),
    scaled: (u32, u32),
    before: Pixmap,
    after: Pixmap,
) -> bool;

/// `resvg::render` of the document, under `Transform::from_scale` with the
/// quotient of `scaled` by `natural` on each axis, taken in the renderer's own
/// number type. The drawing lands in `pixmap`, whose size does not change.
#[verifier::external_body]
pub(crate) fn render_scaled(
    tree: &Tree,
    natural: (u32, u32),
    scaled: (u32, u32),
    pixmap: &mut Pixmap,
)
    requires
        natural.0 > 0,
        natural.1 > 0,
        scaled.0 > 0,
        scaled.1 > 0,
    ensures
        may_draw(*tree, natural, scaled, *old(pixmap), *final(pixmap)),
        pixmap_width(*final(pixmap)) == pixmap_width(*old(pixmap)),
        pixmap_height(*final(pixmap)) == pixmap_height(*old(pixmap)),
{
    let from = IntSize::from_wh(natural.0, natural.1).unwrap().to_size();
    let to = IntSize::from_wh(scaled.0, scaled.1).unwrap().to_size();
    let transform = Transform::from_scale(to.width() / from.width(), to.height() / from.height());
    resvg::render(tree, transform, &mut pixmap.as_mut());
}

/// What `Pixmap::encode_png` gives for the buffer: the bytes of a PNG image,
/// or the text of the encoder's error.
pub uninterp spec fn png_of(pixmap: Pixmap) -> Result<Seq<u8>, Seq<char>>;

/// `Pixmap::encode_png`, the error turned into its text by `to_string`.
#[verifier::external_body]
pub(crate) fn encode_png(pixmap: &Pixmap) -> (png: Result<Vec<u8>, String>)
    ensures
        match png {
            Ok(bytes) => png_of(*pixmap) == Ok::<Seq<u8>, Seq<char>>(bytes@),
            Err(text) => png_of(*pixmap) == Err::<Seq<u8>, Seq<char>>(text@),
        },
{
    pixmap.encode_png().map_err(|error| error.to_string())
}

} // verus!
