//! The trusted boundary to the rendering engine and the codecs.
//!
//! Everything here is an `external_body` wrapper around one function of an
//! outside crate, or the declaration of an outside type those wrappers
//! carry. The named results (`png_of`, `jpeg_of`, the `pix_*` and `db_len`
//! observers) stand for values the library does not restate; the verified
//! modules build their contracts on what the wrappers state of them.

use vstd::prelude::*;

use crate::errors::RenderError;
use crate::modes::{ImageMode, ShapeMode, TextMode};
use resvg::tiny_skia;
use resvg::usvg;
use resvg::usvg::fontdb;
use std::path::PathBuf;
use std::sync::Arc;

verus! {

#[verifier::external_type_specification]
#[verifier::external_body]
pub struct ExDatabase(fontdb::Database);

#[verifier::external_type_specification]
#[verifier::external_body]
pub struct ExTree(usvg::Tree);

#[verifier::external_type_specification]
#[verifier::external_body]
pub struct ExPixmap(tiny_skia::Pixmap);

#[verifier::external_type_specification]
#[verifier::external_body]
pub struct ExShapeRendering(usvg::ShapeRendering);

#[verifier::external_type_specification]
#[verifier::external_body]
pub struct ExTextRendering(usvg::TextRendering);

#[verifier::external_type_specification]
#[verifier::external_body]
pub struct ExImageRendering(usvg::ImageRendering);

/// The number of font faces a catalog holds.
pub uninterp spec fn db_len(db: fontdb::Database) -> nat;

/// The width in pixels of a raster canvas.
pub uninterp spec fn pix_width(p: tiny_skia::Pixmap) -> u32;

/// The height in pixels of a raster canvas.
pub uninterp spec fn pix_height(p: tiny_skia::Pixmap) -> u32;

/// The pixel bytes of a raster canvas: four bytes per pixel, row-major.
pub uninterp spec fn pix_data(p: tiny_skia::Pixmap) -> Seq<u8>;

/// Whether a text is accepted by the engine's document parser: it is
/// well-formed XML (DTD constructs allowed), its root element is `svg`,
/// and it stays within the parser's structural limits. A function of the
/// text alone; the engine reports a parse failure exactly when it fails.
pub uninterp spec fn svg_text_parses(text: Seq<char>) -> bool;

/// The PNG encoding of a canvas given as its pixel bytes and dimensions.
pub uninterp spec fn png_of(data: Seq<u8>, width: u32, height: u32) -> Seq<u8>;

/// The JPEG encoding, at the given quality, of a buffer of three-byte RGB
/// pixels with the given dimensions.
pub uninterp spec fn jpeg_of(rgb: Seq<u8>, width: u32, height: u32, quality: u8) -> Seq<u8>;

/// Relies on fontdb::Database::new: a catalog that holds no font faces.
#[verifier::external_body]
pub(crate) fn db_new() -> (r: fontdb::Database)
    ensures
        db_len(r) == 0,
{
    fontdb::Database::new()
}

/// Relies on fontdb::Database::load_font_file: on any I/O failure it
/// returns an error before touching the catalog, so the catalog is
/// unchanged; what a successful load adds is left unstated.
#[verifier::external_body]
pub(crate) fn db_load_font_file(db: &mut fontdb::Database, path: &str) -> (ok: bool)
    ensures
        !ok ==> *final(db) == *old(db),
        db_len(*final(db)) >= db_len(*old(db)),
{
    db.load_font_file(path).is_ok()
}

/// Relies on fontdb::Database::load_fonts_dir: scans the directory
/// recursively and loads every valid font file it finds, skipping
/// everything invalid; best-effort, and faces are only ever added.
#[verifier::external_body]
pub(crate) fn db_load_fonts_dir(db: &mut fontdb::Database, path: &str)
    ensures
        db_len(*final(db)) >= db_len(*old(db)),
{
    db.load_fonts_dir(path);
}

/// Relies on fontdb::Database::load_system_fonts: best-effort enumeration
/// of the fonts the operating system provides; faces are only ever added.
#[verifier::external_body]
pub(crate) fn db_load_system_fonts(db: &mut fontdb::Database)
    ensures
        db_len(*final(db)) >= db_len(*old(db)),
{
    db.load_system_fonts();
}

/// Relies on fontdb::Database::len: the number of faces the catalog holds.
#[verifier::external_body]
pub(crate) fn db_face_count(db: &fontdb::Database) -> (n: usize)
    ensures
        n as nat == db_len(*db),
{
    db.len()
}

/// Relies on fontdb::Database's derived Clone: the copy equals the source.
#[verifier::external_body]
pub(crate) fn db_clone(db: &fontdb::Database) -> (r: fontdb::Database)
    ensures
        r == *db,
{
    db.clone()
}

/// Relies on usvg::ShapeRendering: carries the selected mode into the
/// engine's own enum, variant for variant.
#[verifier::external_body]
pub(crate) fn shape_to_engine(m: ShapeMode) -> (r: usvg::ShapeRendering) {
    match m {
        ShapeMode::OptimizeSpeed => usvg::ShapeRendering::OptimizeSpeed,
        ShapeMode::CrispEdges => usvg::ShapeRendering::CrispEdges,
        ShapeMode::GeometricPrecision => usvg::ShapeRendering::GeometricPrecision,
    }
}

/// Relies on usvg::TextRendering: carries the selected mode into the
/// engine's own enum, variant for variant.
#[verifier::external_body]
pub(crate) fn text_to_engine(m: TextMode) -> (r: usvg::TextRendering) {
    match m {
        TextMode::OptimizeSpeed => usvg::TextRendering::OptimizeSpeed,
        TextMode::OptimizeLegibility => usvg::TextRendering::OptimizeLegibility,
        TextMode::GeometricPrecision => usvg::TextRendering::GeometricPrecision,
    }
}

/// Relies on usvg::ImageRendering: carries the selected mode into the
/// engine's own enum, variant for variant.
#[verifier::external_body]
pub(crate) fn image_to_engine(m: ImageMode) -> (r: usvg::ImageRendering) {
    match m {
        ImageMode::OptimizeQuality => usvg::ImageRendering::OptimizeQuality,
        ImageMode::OptimizeSpeed => usvg::ImageRendering::OptimizeSpeed,
    }
}

/// Relies on usvg::Tree::from_str: parses the text as XML with DTD
/// constructs allowed and resolves it into a scene tree using the given
/// resource directory, font catalog and quality modes. The result is a
/// parse error exactly when the document parser rejects the text; every
/// other failure is a resolution failure.
#[verifier::external_body]
pub(crate) fn build_tree(
    text: &str,
    resources_dir: &str,
    db: &fontdb::Database,
    sr: usvg::ShapeRendering,
    tr: usvg::TextRendering,
    ir: usvg::ImageRendering,
) -> (r: Result<usvg::Tree, RenderError>)
    ensures
        r matches Err(e) ==> (e is Parse || e is Build),
        (!svg_text_parses(text@)) <==> (r matches Err(e) && e is Parse),
{
    let opt = usvg::Options {
        resources_dir: Some(PathBuf::from(resources_dir)),
        fontdb: Arc::new(db.clone()),
        shape_rendering: sr,
        text_rendering: tr,
        image_rendering: ir,
        ..usvg::Options::default()
    };
    match usvg::Tree::from_str(text, &opt) {
        Ok(t) => Ok(t),
        Err(usvg::Error::ParsingFailed(e)) => Err(RenderError::Parse(format!("{}", e))),
        Err(e) => Err(RenderError::Build(format!("{}", e))),
    }
}

/// Relies on usvg::Tree::size, tiny_skia::Size::to_int_size and
/// tiny_skia::IntSize::scale_by: the tree's intrinsic size scaled by the
/// float the bits denote; any size it returns has both dimensions at
/// least one, since IntSize holds non-zero dimensions.
#[verifier::external_body]
pub(crate) fn scaled_size(tree: &usvg::Tree, scale_bits: u32) -> (r: Option<(u32, u32)>)
    ensures
        r matches Some(wh) ==> 1 <= wh.0 && 1 <= wh.1,
{
    match tree.size().to_int_size().scale_by(bytemuck::cast(scale_bits)) {
        Some(s) => Some((s.width(), s.height())),
        None => None,
    }
}

/// Relies on tiny_skia::Pixmap::new: a zeroed canvas of the given
/// dimensions, four bytes per pixel, or None if the size is degenerate or
/// too large to allocate.
#[verifier::external_body]
pub(crate) fn pixmap_new(width: u32, height: u32) -> (r: Option<tiny_skia::Pixmap>)
    ensures
        r matches Some(p) ==> pix_width(p) == width && pix_height(p) == height
            && pix_data(p).len() == 4 * (width as nat) * (height as nat),
{
    tiny_skia::Pixmap::new(width, height)
}

/// Relies on resvg::render: rasterizes the tree onto the canvas with a
/// uniform scale transform taken from the float the bits denote; it
/// writes pixels only, never the canvas dimensions.
#[verifier::external_body]
pub(crate) fn rasterize(tree: &usvg::Tree, scale_bits: u32, canvas: &mut tiny_skia::Pixmap)
    ensures
        pix_width(*final(canvas)) == pix_width(*old(canvas)),
        pix_height(*final(canvas)) == pix_height(*old(canvas)),
        pix_data(*final(canvas)).len() == pix_data(*old(canvas)).len(),
{
    let t = tiny_skia::Transform::from_scale(bytemuck::cast(scale_bits), bytemuck::cast(scale_bits));
    resvg::render(tree, t, &mut canvas.as_mut());
}

/// Relies on tiny_skia::Pixmap::take: hands out the canvas's own pixel
/// bytes, whose length is four bytes per pixel of the canvas area.
#[verifier::external_body]
pub(crate) fn pixmap_take(p: tiny_skia::Pixmap) -> (r: Vec<u8>)
    ensures
        r@ == pix_data(p),
        r@.len() == 4 * (pix_width(p) as nat) * (pix_height(p) as nat),
{
    p.take()
}

/// Relies on tiny_skia::IntSize::from_wh and tiny_skia::Pixmap::from_vec:
/// a canvas over exactly the given bytes and dimensions. The engine
/// rejects only a zero dimension or a width whose four-byte rows do not
/// fit its signed row arithmetic; within those caps it always succeeds.
#[verifier::external_body]
pub(crate) fn pixmap_from_vec(data: Vec<u8>, width: u32, height: u32) -> (r: Option<
    tiny_skia::Pixmap,
>)
    requires
        data@.len() == 4 * (width as nat) * (height as nat),
    ensures
        r matches Some(p) ==> pix_width(p) == width && pix_height(p) == height && pix_data(p)
            == data@,
        1 <= width && 1 <= height && width <= 0x1FFF_FFFF ==> r is Some,
{
    let size = tiny_skia::IntSize::from_wh(width, height)?;
    tiny_skia::Pixmap::from_vec(data, size)
}

/// Relies on tiny_skia::Pixmap::encode_png: the lossless PNG encoding of
/// the canvas, a function of its pixel bytes and dimensions alone. A
/// canvas always has non-zero dimensions and a matching buffer, and the
/// encoder writes into a growable buffer, starting with the PNG
/// signature: encoding a canvas always succeeds and is never empty.
#[verifier::external_body]
pub(crate) fn encode_png_bytes(p: &tiny_skia::Pixmap) -> (r: Option<Vec<u8>>)
    ensures
        r is Some,
        r matches Some(v) ==> v@ == png_of(pix_data(*p), pix_width(*p), pix_height(*p))
            && v@.len() > 0,
{
    p.encode_png().ok()
}

/// Relies on image's JpegEncoder: the JPEG encoding, at the given quality,
/// of a buffer of three-byte RGB pixels, a function of the bytes, the
/// dimensions and the quality alone. The encoder panics unless the buffer
/// holds exactly three bytes per pixel, so that is required here. It
/// writes into a growable buffer, starting with the JPEG start-of-image
/// marker, and fails only for a dimension outside the format's sixteen-bit
/// range: within that range it succeeds and is never empty.
#[verifier::external_body]
pub(crate) fn encode_jpeg_rgb(rgb: &Vec<u8>, width: u32, height: u32, quality: u8) -> (r: Option<
    Vec<u8>,
>)
    requires
        rgb@.len() == 3 * (width as nat) * (height as nat),
    ensures
        r matches Some(v) ==> v@ == jpeg_of(rgb@, width, height, quality) && v@.len() > 0,
        1 <= width && width <= 65535 && 1 <= height && height <= 65535 ==> r is Some,
{
    let mut out = std::io::Cursor::new(Vec::new());
    let mut enc = image::codecs::jpeg::JpegEncoder::new_with_quality(&mut out, quality);
    match enc.encode(rgb.as_slice(), width, height, image::ExtendedColorType::Rgb8) {
        Ok(()) => Some(out.into_inner()),
        Err(_) => None,
    }
}

/// Relies on tiny_skia::Pixmap::width: the canvas width in pixels.
#[verifier::external_body]
pub(crate) fn pixmap_width(p: &tiny_skia::Pixmap) -> (r: u32)
    ensures
        r == pix_width(*p),
{
    p.width()
}

/// Relies on tiny_skia::Pixmap::height: the canvas height in pixels.
#[verifier::external_body]
pub(crate) fn pixmap_height(p: &tiny_skia::Pixmap) -> (r: u32)
    ensures
        r == pix_height(*p),
{
    p.height()
}

} // verus!
