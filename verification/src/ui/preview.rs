//! The live recording preview: a quarter-scale RGBA thumbnail of a captured frame.
//!
//! Every fourth pixel of every fourth row is kept; pixels whose source lies
//! beyond the frame's data are drawn in a dark placeholder colour.
use vstd::prelude::*;

verus! {

/// The sampling step in both directions.
pub const PREVIEW_STRIDE: u32 = 4;

/// Where the source pixel of preview pixel (x, y) starts in the frame's bytes.
pub open spec fn source_index(width: int, x: int, y: int) -> int {
    (y * 4 * width + x * 4) * 4
}

/// The RGBA bytes of preview pixel (x, y): the source pixel's first three bytes
/// with full opacity, or the placeholder colour when the source lies past the data.
pub open spec fn preview_pixel(data: Seq<u8>, width: int, x: int, y: int) -> Seq<u8> {
    let idx = source_index(width, x, y);
    if idx + 3 < data.len() {
        seq![data[idx], data[idx + 1], data[idx + 2], 255u8]
    } else {
        seq![10u8, 12u8, 20u8, 255u8]
    }
}

/// The first `n` preview pixels, row by row, of a preview `w` pixels wide.
pub open spec fn preview_prefix(data: Seq<u8>, width: int, w: int, n: nat) -> Seq<u8>
    decreases n,
{
    if n == 0 {
        seq![]
    } else {
        preview_prefix(data, width, w, (n - 1) as nat) + preview_pixel(data, width, (n - 1) % w, (n - 1) / w)
    }
}

/// The largest source index read for a `width`×`height` frame (plus the three
/// bytes read after it); the frame sampler computes it in `usize`.
pub open spec fn last_source_byte(width: int, height: int) -> int {
    source_index(width, width / 4 - 1, height / 4 - 1) + 3
}

/// A downscaled preview image.
pub struct PreviewImage {
    pub width: usize,
    pub height: usize,
    pub rgba: Vec<u8>,
}

/// The quarter-scale preview of a `width`×`height` frame, or `None` when the
/// preview would have no pixels.
pub fn downscale_preview(data: &[u8], width: u32, height: u32) -> (r: Option<PreviewImage>)
    requires
        width / 4 > 0 && height / 4 > 0 ==> last_source_byte(width as int, height as int) <= usize::MAX,
    ensures
        ({
            let w = width / 4;
            let h = height / 4;
            if w > 0 && h > 0 {
                r matches Some(img) && img.width == w && img.height == h
                    && img.rgba@ == preview_prefix(data@, width as int, w as int, (w * h) as nat)
            } else {
                r is None
            }
        }),
{
    let w = (width / PREVIEW_STRIDE) as usize;
    let h = (height / PREVIEW_STRIDE) as usize;
    if w == 0 || h == 0 {
        return None;
    }
    let wd = width as usize;
    let mut rgba: Vec<u8> = Vec::new();
    let mut y: usize = 0;
    while y < h
        invariant
            w == width / 4,
            h == height / 4,
            w > 0,
            wd == width,
            y <= h,
            last_source_byte(width as int, height as int) <= usize::MAX,
            rgba@ == preview_prefix(data@, width as int, w as int, (y * w) as nat),
        decreases h - y,
    {
        let mut x: usize = 0;
        while x < w
            invariant
                w == width / 4,
                h == height / 4,
                w > 0,
                wd == width,
                y < h,
                x <= w,
                last_source_byte(width as int, height as int) <= usize::MAX,
                rgba@ == preview_prefix(data@, width as int, w as int, (y * w + x) as nat),
            decreases w - x,
        {
            assert(source_index(width as int, x as int, y as int) + 3 <= last_source_byte(width as int, height as int)) by (nonlinear_arith)
                requires
                    0 <= x < w,
                    0 <= y < h,
                    w == width / 4,
                    h == height / 4,
                    width >= 0,
            ;
            let sx = x * 4;
            let sy = y * 4;
            let idx = (sy * wd + sx) * 4;
            proof {
                let n: int = y * w + x;
                vstd::arithmetic::div_mod::lemma_fundamental_div_mod_converse(n, w as int, y as int, x as int);
            }
            let ghost before = rgba@;
            if idx + 3 < data.len() {
                rgba.push(data[idx]);
                rgba.push(data[idx + 1]);
                rgba.push(data[idx + 2]);
                rgba.push(255);
            } else {
                rgba.push(10);
                rgba.push(12);
                rgba.push(20);
                rgba.push(255);
            }
            assert(rgba@ =~= before + preview_pixel(data@, width as int, x as int, y as int));
            x = x + 1;
        }
        assert((y + 1) * w == y * w + w) by (nonlinear_arith);
        y = y + 1;
    }
    assert(h * w == w * h) by (nonlinear_arith);
    Some(PreviewImage { width: w, height: h, rgba })
}

} // verus!
