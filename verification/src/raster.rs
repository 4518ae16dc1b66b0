//! RGBA raster images and the bounds-clamped crop.
//!
//! An `Image` is a flat row-major buffer of 4-byte RGBA pixels. `crop_image`
//! extracts a rectangular sub-image, first clamping the request so that no
//! read ever falls outside the source buffer; the copied bytes are pinned
//! down exactly by `crop_pixels`.

use vstd::arithmetic::div_mod::lemma_fundamental_div_mod_converse;
use vstd::prelude::*;

verus! {

/// A raster image: `pixels` holds `height` rows of `width` RGBA pixels,
/// 4 bytes each, row-major.
pub struct Image {
    pub width: u32,
    pub height: u32,
    pub pixels: Vec<u8>,
}

impl Image {
    /// The buffer holds exactly one 4-byte pixel per coordinate.
    pub open spec fn wf(self) -> bool {
        self.pixels@.len() == 4 * self.width * self.height
    }

    /// Byte `k` (0..4) of the pixel at column `x`, row `y`.
    pub open spec fn byte_at(self, x: int, y: int, k: int) -> u8 {
        self.pixels@[4 * (y * self.width + x) + k]
    }
}

/// Column (or row) where the clamped crop starts: the requested position,
/// pulled back to the last valid position of the source if it lies beyond.
pub open spec fn crop_start(img_extent: int, v: int) -> int {
    let last = if img_extent == 0 { 0int } else { img_extent - 1 };
    if v <= last {
        v
    } else {
        last
    }
}

/// Extent of the clamped crop along one axis: the requested extent, cut
/// down so the crop ends within the source.
pub open spec fn crop_extent(img_extent: int, v: int, requested: int) -> int {
    let rest = img_extent - crop_start(img_extent, v);
    if requested <= rest {
        requested
    } else {
        rest
    }
}

/// The bytes of the crop of `img` that starts at `(cx, cy)` and is
/// `cw` pixels wide and `ch` pixels tall, row-major.
pub open spec fn crop_pixels(img: Image, cx: int, cy: int, cw: int, ch: int) -> Seq<u8> {
    Seq::new((4 * cw * ch) as nat, |i: int| img.byte_at(cx + (i / 4) % cw, cy + (i / 4) / cw, i % 4))
}

/// Clamp the requested region to the source bounds and copy it out,
/// pixel for pixel.
pub fn crop_image(img: &Image, x: u32, y: u32, width: u32, height: u32) -> (r: Image)
    requires
        img.wf(),
    ensures
        r.wf(),
        r.width == crop_extent(img.width as int, x as int, width as int),
        r.height == crop_extent(img.height as int, y as int, height as int),
        r.pixels@ == crop_pixels(
            *img,
            crop_start(img.width as int, x as int),
            crop_start(img.height as int, y as int),
            crop_extent(img.width as int, x as int, width as int),
            crop_extent(img.height as int, y as int, height as int),
        ),
{
    let last_x: u32 = if img.width == 0 { 0 } else { img.width - 1 };
    let last_y: u32 = if img.height == 0 { 0 } else { img.height - 1 };
    let cx: u32 = if x <= last_x { x } else { last_x };
    let cy: u32 = if y <= last_y { y } else { last_y };
    let rest_w: u32 = img.width - cx;
    let rest_h: u32 = img.height - cy;
    let cw: u32 = if width <= rest_w { width } else { rest_w };
    let ch: u32 = if height <= rest_h { height } else { rest_h };

    let ghost target: Seq<u8> = crop_pixels(*img, cx as int, cy as int, cw as int, ch as int);
    let ghost nn: int = (cw as int) * (ch as int);
    let sw: usize = img.width as usize;
    let plen: usize = img.pixels.len();

    proof {
        assert(target.len() == 4 * nn && 0 <= nn) by (nonlinear_arith)
            requires
                target.len() == 4 * cw * ch,
                nn == (cw as int) * (ch as int),
                cw >= 0,
                ch >= 0,
        ;
    }

    let mut out: Vec<u8> = Vec::new();
    let mut dy: u32 = 0;
    while dy < ch
        invariant
            img.wf(),
            cw <= img.width - cx,
            ch <= img.height - cy,
            sw == img.width,
            plen == img.pixels@.len(),
            dy <= ch,
            target == crop_pixels(*img, cx as int, cy as int, cw as int, ch as int),
            nn == (cw as int) * (ch as int),
            target.len() == 4 * nn,
            0 <= (dy as int) * (cw as int) <= nn,
            out@ =~= target.subrange(0, 4 * ((dy as int) * (cw as int))),
        decreases ch - dy,
    {
        let mut dx: u32 = 0;
        while dx < cw
            invariant
                img.wf(),
                cw <= img.width - cx,
                ch <= img.height - cy,
                sw == img.width,
                plen == img.pixels@.len(),
                dy < ch,
                dx <= cw,
                target == crop_pixels(*img, cx as int, cy as int, cw as int, ch as int),
                nn == (cw as int) * (ch as int),
                target.len() == 4 * nn,
                0 <= (dy as int) * (cw as int) + dx as int <= nn,
                out@ =~= target.subrange(0, 4 * ((dy as int) * (cw as int) + dx as int)),
            decreases cw - dx,
        {
            let ghost p: int = (dy as int) * (cw as int) + dx as int;
            proof {
                assert(p < nn) by (nonlinear_arith)
                    requires
                        p == (dy as int) * (cw as int) + dx as int,
                        nn == (cw as int) * (ch as int),
                        0 <= dx < cw,
                        0 <= dy < ch,
                ;
            }
            let sx: usize = (cx + dx) as usize;
            let sy: usize = (cy + dy) as usize;
            proof {
                assert(4 * ((sy as int) * (img.width as int) + sx as int) + 3 < img.pixels@.len())
                    by (nonlinear_arith)
                    requires
                        img.pixels@.len() == 4 * (img.width as int) * (img.height as int),
                        0 <= sy < img.height,
                        0 <= sx < img.width,
                ;
            }
            let base: usize = 4 * (sy * sw + sx);
            let b0 = img.pixels[base];
            let b1 = img.pixels[base + 1];
            let b2 = img.pixels[base + 2];
            let b3 = img.pixels[base + 3];
            out.push(b0);
            out.push(b1);
            out.push(b2);
            out.push(b3);
            proof {
                lemma_fundamental_div_mod_converse(p, cw as int, dy as int, dx as int);
                assert forall|k: int| 0 <= k < 4 implies #[trigger] target[4 * p + k]
                    == img.byte_at(cx + dx, cy + dy, k) by {
                    lemma_fundamental_div_mod_converse(4 * p + k, 4, p, k);
                }
                assert(out@ =~= target.subrange(0, 4 * (p + 1)));
            }
            dx = dx + 1;
        }
        proof {
            assert((dy as int + 1) * (cw as int) == (dy as int) * (cw as int) + cw as int
                && (dy as int + 1) * (cw as int) <= nn) by (nonlinear_arith)
                requires
                    nn == (cw as int) * (ch as int),
                    0 <= dy < ch,
                    cw >= 0,
            ;
        }
        dy = dy + 1;
    }
    proof {
        assert((ch as int) * (cw as int) == nn) by (nonlinear_arith)
            requires
                nn == (cw as int) * (ch as int),
        ;
        assert(out@ =~= target);
    }
    Image { width: cw, height: ch, pixels: out }
}

/// Cropping copies, it never resamples: every byte of the crop equals the
/// source byte at the same offset within the pixel, translated by the
/// crop's start position.
pub proof fn lemma_crop_pixel_identity(
    img: Image,
    cx: int,
    cy: int,
    cw: int,
    ch: int,
    dx: int,
    dy: int,
    k: int,
)
    requires
        0 <= dx < cw,
        0 <= dy < ch,
        0 <= k < 4,
    ensures
        crop_pixels(img, cx, cy, cw, ch)[4 * (dy * cw + dx) + k] == img.byte_at(
            cx + dx,
            cy + dy,
            k,
        ),
{
    let p = dy * cw + dx;
    assert(0 <= p < cw * ch) by (nonlinear_arith)
        requires
            p == dy * cw + dx,
            0 <= dx < cw,
            0 <= dy < ch,
    ;
    assert(4 * p + k < 4 * cw * ch) by (nonlinear_arith)
        requires
            0 <= p < cw * ch,
            0 <= k < 4,
    ;
    lemma_fundamental_div_mod_converse(4 * p + k, 4, p, k);
    lemma_fundamental_div_mod_converse(p, cw, dy, dx);
}

} // verus!
