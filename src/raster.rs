use vstd::prelude::*;
use tiny_skia::Pixmap;
use usvg::{Options, Tree};

verus! {

#[verifier::external_type_specification]
#[verifier::external_body]
pub struct ExOptions(Options);

#[verifier::external_type_specification]
#[verifier::external_body]
pub struct ExTree(Tree);

#[verifier::external_type_specification]
#[verifier::external_body]
pub struct ExUsvgError(usvg::Error);

#[verifier::external_type_specification]
#[verifier::external_body]
pub struct ExPixmap(Pixmap);

/// Why an SVG document could not be turned into a PNG image.
#[derive(Clone, Copy, Debug, PartialEq, Eq, Structural)]
pub enum RenderFailure {
    /// The document is not SVG that can be read.
    InvalidDocument,
    /// No pixmap of the document's size can be made.
    InvalidSize,
    /// The document could not be drawn.
    DrawFailed,
    /// The pixels could not be encoded as PNG.
    EncodeFailed,
}

/// Relies on `usvg::Tree::from_str`: reads an SVG document into a render
/// tree, shaping its text with the fonts of `opt`.
#[verifier::external_body]
fn parse_tree(text: &str, opt: &Options) -> (r: Result<Tree, usvg::Error>) {
    Tree::from_str(text, &opt.to_ref())
}

/// Relies on usvg's `Tree::svg_node` and `Size::to_screen_size`: the
/// document's size rounded to whole pixels, each side at least one.
#[verifier::external_body]
fn pixel_size(tree: &Tree) -> (r: (u32, u32))
    ensures
        r.0 >= 1,
        r.1 >= 1,
{
    let size = tree.svg_node().size.to_screen_size();
    (size.width(), size.height())
}

/// Relies on `tiny_skia::Pixmap::new`: a transparent pixmap, or `None` for
/// a zero side, a width beyond `i32::MAX / 4` or a size too large.
pub assume_specification[ Pixmap::new ](width: u32, height: u32) -> (r: Option<Pixmap>)
    ensures
        width == 0 || height == 0 ==> r is None,
        width > i32::MAX / 4 ==> r is None,
;

/// Relies on `resvg::render`: draws the tree at its own size onto the
/// pixmap; `false` where resvg reports a failure.
#[verifier::external_body]
fn draw(tree: &Tree, pixmap: &mut Pixmap) -> (r: bool) {
    resvg::render(tree, usvg::FitTo::Original, tiny_skia::Transform::default(), pixmap.as_mut())
        .is_some()
}

/// The eight bytes that open every PNG file.
pub open spec fn png_signature() -> Seq<u8> {
    seq![137u8, 80u8, 78u8, 71u8, 13u8, 10u8, 26u8, 10u8]
}

/// Whether `bytes` open with the PNG signature.
pub open spec fn png_signed(bytes: Seq<u8>) -> bool {
    bytes.len() >= 8 && bytes.subrange(0, 8) == png_signature()
}

/// Relies on `tiny_skia::Pixmap::encode_png`: the pixmap as a PNG file, or
/// `None` where the encoder fails. The png encoder writes the signature
/// into the empty buffer before anything else.
#[verifier::external_body]
fn encode_png(pixmap: &Pixmap) -> (r: Option<Vec<u8>>)
    ensures
        r is Some ==> png_signed(r->Some_0@),
{
    pixmap.encode_png().ok()
}

/// Renders an SVG document at its own size and encodes it as PNG, shaping
/// text with the fonts of `fonts`. What comes back on success is a PNG file.
pub fn to_raster(svg: &str, fonts: &Options) -> (r: Result<Vec<u8>, RenderFailure>)
    ensures
        r is Ok ==> png_signed(r->Ok_0@),
{
    let tree = match parse_tree(svg, fonts) {
        Ok(t) => t,
        Err(_) => return Err(RenderFailure::InvalidDocument),
    };
    let (width, height) = pixel_size(&tree);
    let mut pixmap = match Pixmap::new(width, height) {
        Some(p) => p,
        None => return Err(RenderFailure::InvalidSize),
    };
    if !draw(&tree, &mut pixmap) {
        return Err(RenderFailure::DrawFailed);
    }
    match encode_png(&pixmap) {
        Some(png) => Ok(png),
        None => Err(RenderFailure::EncodeFailed),
    }
}

} // verus!
