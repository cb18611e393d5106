//! Pixel-buffer conversion: dropping the alpha channel.
//!
//! Raster canvases hold four bytes per pixel (RGBA); JPEG has no alpha
//! channel, so before JPEG encoding the fourth byte of every pixel is
//! discarded and the first three are kept pixel-for-pixel. Feeding a
//! four-channel buffer to a three-channel encoder would be wrong, so this
//! step is a required part of the JPEG path, not an optimization.

use vstd::prelude::*;

verus! {

/// The RGB bytes of an RGBA buffer: three bytes per pixel, each taken
/// from the same pixel of the input, the fourth input byte dropped.
pub open spec fn drop_alpha(data: Seq<u8>) -> Seq<u8> {
    Seq::new((data.len() / 4 * 3) as nat, |i: int| data[i / 3 * 4 + i % 3])
}

/// Every output byte of `drop_alpha` is the matching red, green or blue
/// byte of the same pixel of the input, and the output holds exactly
/// three bytes for every four input bytes: no pixel keeps its alpha byte.
pub proof fn lemma_drop_alpha_pointwise(data: Seq<u8>, pixel: int, channel: int)
    requires
        0 <= pixel,
        0 <= channel < 3,
        4 * pixel + channel < data.len(),
    ensures
        drop_alpha(data).len() == data.len() / 4 * 3,
        3 * pixel + channel < drop_alpha(data).len() ==> drop_alpha(data)[3 * pixel + channel]
            == data[4 * pixel + channel],
{
    if 3 * pixel + channel < drop_alpha(data).len() {
        let i = 3 * pixel + channel;
        assert(i / 3 == pixel && i % 3 == channel) by (nonlinear_arith)
            requires
                0 <= pixel,
                0 <= channel < 3,
                i == 3 * pixel + channel,
        ;
    }
}

/// Copies the RGB components of a four-byte-per-pixel buffer into a new
/// three-byte-per-pixel buffer, discarding the fourth byte of every
/// pixel.
pub fn rgba8_to_rgb8(data: &Vec<u8>) -> (out: Vec<u8>)
    ensures
        out@ == drop_alpha(data@),
        out@.len() == data@.len() / 4 * 3,
{
    let total: usize = data.len();
    let pixel_count: usize = total / 4;
    let mut out: Vec<u8> = Vec::new();
    let mut p: usize = 0;
    while p < pixel_count
        invariant
            p <= pixel_count,
            total == data@.len(),
            pixel_count == data@.len() / 4,
            out@.len() == 3 * p,
            forall|i: int| 0 <= i < out@.len() ==> out@[i] == data@[i / 3 * 4 + i % 3],
        decreases pixel_count - p,
    {
        assert(p * 4 + 4 <= total) by (nonlinear_arith)
            requires
                p < pixel_count,
                total == data@.len(),
                pixel_count == data@.len() / 4,
        ;
        let base: usize = p * 4;
        out.push(data[base]);
        out.push(data[base + 1]);
        out.push(data[base + 2]);
        assert forall|i: int| 0 <= i < out@.len() implies out@[i] == data@[i / 3 * 4 + i % 3] by {
            if i >= 3 * p {
                assert(i / 3 == p && (i == 3 * p + i % 3)) by (nonlinear_arith)
                    requires
                        3 * p <= i < 3 * (p + 1),
                ;
            }
        }
        p = p + 1;
    }
    assert(out@ =~= drop_alpha(data@)) by {
        assert(out@.len() == data@.len() / 4 * 3) by (nonlinear_arith)
            requires
                out@.len() == 3 * (data@.len() / 4),
        ;
        assert forall|i: int| 0 <= i < out@.len() implies out@[i] == drop_alpha(data@)[i] by {
            assert(out@[i] == data@[i / 3 * 4 + i % 3]);
        }
    }
    out
}

} // verus!
