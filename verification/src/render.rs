//! The rendering pipeline.
//!
//! `render` is a pure function of the document text, an options snapshot,
//! a scale and an output format: it parses, resolves, rasterizes and
//! encodes, and returns either the encoded bytes or one structured error.
//! A non-positive or NaN scale is silently normalized to 1.0 before any
//! other step; a zero or unrepresentable raster size is a reported error,
//! never a crash.

use vstd::prelude::*;

use crate::engine;
use crate::engine::{jpeg_of, pix_data, pix_height, pix_width, png_of, svg_text_parses};
use crate::errors::RenderError;
use crate::options::RenderOptions;
use crate::pixels::{drop_alpha, rgba8_to_rgb8};
use crate::scale::normalize_scale_bits;
use resvg::tiny_skia;

verus! {

/// The JPEG quality the pipeline always encodes at.
pub const JPEG_QUALITY: u8 = 95;

/// The output format of a render call.
#[derive(Clone, Copy, Debug, PartialEq, Eq, Structural)]
pub enum RenderType {
    Png,
    Jpeg,
}

/// What the encoded bytes of a canvas are: the PNG encoding of its RGBA
/// bytes, or the JPEG encoding (at the pipeline's fixed quality) of those
/// bytes with the alpha channel dropped.
pub open spec fn encoded_canvas(data: Seq<u8>, width: u32, height: u32, format: RenderType) -> Seq<
    u8,
> {
    match format {
        RenderType::Png => png_of(data, width, height),
        RenderType::Jpeg => jpeg_of(drop_alpha(data), width, height, JPEG_QUALITY),
    }
}

/// What a finished render call may return: non-empty encoded bytes of
/// some canvas whose pixel dimensions are at least one, or one of the
/// pipeline's own errors — never a handle or marshaling error, and never
/// an empty success.
pub open spec fn render_post(r: Result<Vec<u8>, RenderError>, format: RenderType) -> bool {
    match r {
        Ok(bytes) => bytes@.len() > 0 && exists|data: Seq<u8>, width: u32, height: u32|
            {
                &&& 1 <= width
                &&& 1 <= height
                &&& data.len() == 4 * (width as nat) * (height as nat)
                &&& bytes@ == encoded_canvas(data, width, height, format)
            },
        Err(e) => e is Parse || e is Build || e is Size || e is Allocation || e is Internal,
    }
}

/// Encodes the RGBA bytes of a finished canvas in the chosen format. For
/// JPEG the alpha channel is dropped first — pixel for pixel, keeping
/// the three RGB bytes — because a JPEG never carries an alpha channel.
/// Success is owed whenever the codec can represent the dimensions: any
/// canvas whose rows fit the PNG engine's row arithmetic encodes as PNG,
/// and any canvas within JPEG's sixteen-bit dimension range encodes as
/// JPEG; the result is never an empty buffer.
pub fn encode_canvas(data: Vec<u8>, width: u32, height: u32, format: RenderType) -> (r: Result<
    Vec<u8>,
    RenderError,
>)
    requires
        data@.len() == 4 * (width as nat) * (height as nat),
    ensures
        r matches Ok(bytes) ==> bytes@ == encoded_canvas(data@, width, height, format)
            && bytes@.len() > 0,
        r matches Err(e) ==> e is Internal,
        format is Png && 1 <= width && 1 <= height && width <= 0x1FFF_FFFF ==> r is Ok,
        format is Jpeg && 1 <= width && width <= 65535 && 1 <= height && height <= 65535
            ==> r is Ok,
{
    match format {
        RenderType::Png => {
            let canvas = match engine::pixmap_from_vec(data, width, height) {
                Some(c) => c,
                None => {
                    return Err(RenderError::Internal);
                },
            };
            match engine::encode_png_bytes(&canvas) {
                Some(bytes) => Ok(bytes),
                None => Err(RenderError::Internal),
            }
        },
        RenderType::Jpeg => {
            let rgb = rgba8_to_rgb8(&data);
            assert(rgb@.len() == 3 * (width as nat) * (height as nat)) by (nonlinear_arith)
                requires
                    rgb@.len() == data@.len() / 4 * 3,
                    data@.len() == 4 * (width as nat) * (height as nat),
            ;
            match engine::encode_jpeg_rgb(&rgb, width, height, JPEG_QUALITY) {
                Some(bytes) => Ok(bytes),
                None => Err(RenderError::Internal),
            }
        },
    }
}

/// Encodes a finished canvas as JPEG: drops the alpha channel, then
/// encodes the RGB bytes at the pipeline's fixed quality. Success is
/// owed whenever both dimensions fit JPEG's sixteen-bit range, and the
/// result is never an empty buffer.
pub fn encode_jpg(map: tiny_skia::Pixmap) -> (r: Result<Vec<u8>, RenderError>)
    ensures
        r matches Ok(bytes) ==> bytes@ == encoded_canvas(
            pix_data(map),
            pix_width(map),
            pix_height(map),
            RenderType::Jpeg,
        ) && bytes@.len() > 0,
        r matches Err(e) ==> e is Internal,
        1 <= pix_width(map) && pix_width(map) <= 65535 && 1 <= pix_height(map) && pix_height(map)
            <= 65535 ==> r is Ok,
{
    let width = engine::pixmap_width(&map);
    let height = engine::pixmap_height(&map);
    let data = engine::pixmap_take(map);
    encode_canvas(data, width, height, RenderType::Jpeg)
}

/// Renders a document: parse the text as XML, resolve it into a scene
/// with the snapshot's resources and fonts, compute the raster size as
/// the intrinsic size scaled by the normalized scale, rasterize, and
/// encode in the chosen format. Each step's failure is its own error: in
/// particular the result is a parse error exactly when the document
/// parser rejects the text (malformed XML among else), and an error
/// never carries output bytes. The result
/// depends on the scale only through its normalization, so a
/// non-positive or NaN scale renders exactly as scale 1.0 does.
pub fn render(xmldata: &str, opt: &RenderOptions, scale_bits: u32, render_type: RenderType) -> (r:
    Result<Vec<u8>, RenderError>)
    ensures
        render_post(r, render_type),
        (!svg_text_parses(xmldata@)) <==> (r matches Err(e) && e is Parse),
{
    let scale = normalize_scale_bits(scale_bits);
    let sr = engine::shape_to_engine(opt.shape_rendering);
    let tr = engine::text_to_engine(opt.text_rendering);
    let ir = engine::image_to_engine(opt.image_rendering);
    let tree = match engine::build_tree(xmldata, opt.resources_dir.as_str(), &opt.fontdb, sr, tr, ir)
    {
        Ok(t) => t,
        Err(e) => {
            return Err(e);
        },
    };
    let (width, height) = match engine::scaled_size(&tree, scale) {
        Some(wh) => wh,
        None => {
            return Err(RenderError::Size);
        },
    };
    let mut canvas = match engine::pixmap_new(width, height) {
        Some(c) => c,
        None => {
            return Err(RenderError::Allocation);
        },
    };
    engine::rasterize(&tree, scale, &mut canvas);
    let data = engine::pixmap_take(canvas);
    encode_canvas(data, width, height, render_type)
}

} // verus!
