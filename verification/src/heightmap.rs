//! The height image and the smoothing sampler.
//!
//! A `HeightImage` is an immutable row-major grid of unsigned 16-bit
//! samples. The sampler averages the up-to-4 samples of the 2x2 block whose
//! bottom-right corner is the queried cell, skipping out-of-bounds corners.
//! Heights are kept in an exact fixed-point scale: a full-scale raw sample
//! (65535) maps to `HEIGHT_ONE`, so the mean of 1, 2, 3 or 4 corner samples
//! is an exact integer.

use vstd::arithmetic::div_mod::{lemma_div_is_ordered, lemma_div_multiples_vanish};
use vstd::prelude::*;

verus! {

/// Fixed-point value of a normalized height of 1.0 (raw sample 65535).
/// The factor 12 makes the average of 1, 2, 3 or 4 samples exact.
pub const HEIGHT_ONE: u32 = 12 * 65535;

/// The bytes could not be decoded as a raster image, or the image is not a
/// 16-bit single-channel grayscale image, or one of its dimensions is zero.
#[derive(Clone, Copy, Debug, PartialEq, Eq, Structural)]
pub struct ImageDecodeError;

/// An immutable 2D grid of unsigned 16-bit height samples, row-major,
/// origin top-left; both dimensions are at least 1.
pub struct HeightImage {
    width: u32,
    height: u32,
    data: Vec<u16>,
}

/// What decoding a byte string as a 16-bit single-channel grayscale image
/// yields: `None` when the bytes are not decodable to that format, else the
/// width, the height and the row-major samples. Decoding is a pure function
/// of the byte content; this name stands for its (unspecified) result.
pub uninterp spec fn luma16_decode(bytes: Seq<u8>) -> Option<(nat, nat, Seq<u16>)>;

/// The bytes decode to a 16-bit grayscale image with both dimensions >= 1.
pub open spec fn decodes_to_valid(bytes: Seq<u8>) -> bool {
    match luma16_decode(bytes) {
        Some(t) => 1 <= t.0 && 1 <= t.1,
        None => false,
    }
}

/// Relies on `image::load_from_memory` and `image::DynamicImage::as_luma16`:
/// decoding is a pure function of the byte content, `as_luma16` returns the
/// buffer only for a 16-bit single-channel grayscale image, and an
/// `image::ImageBuffer`'s raw container holds exactly width*height samples.
#[verifier::external_body]
fn decode_luma16(bytes: &[u8]) -> (r: Option<(u32, u32, Vec<u16>)>)
    ensures
        match (r, luma16_decode(bytes@)) {
            (Some(t), Some(s)) => (
                t.0 as nat == s.0 && t.1 as nat == s.1 && t.2@ == s.2 && s.2.len() == s.0 * s.1
            ),
            (None, None) => true,
            _ => false,
        },
{
    match image::load_from_memory(bytes) {
        Ok(decoded) => match decoded.as_luma16() {
            Some(buf) => Some((buf.width(), buf.height(), buf.as_raw().clone())),
            None => None,
        },
        Err(_) => None,
    }
}

proof fn lemma_row_major_bound(y: int, x: int, w: int, h: int)
    requires
        0 <= y < h,
        0 <= x < w,
    ensures
        0 <= y * w + x < w * h,
{
    assert(y * w + x < w * h) by (nonlinear_arith)
        requires
            0 <= y < h,
            0 <= x < w,
    ;
}

impl HeightImage {
    /// Number of sample columns.
    pub closed spec fn spec_width(self) -> int {
        self.width as int
    }

    /// Number of sample rows.
    pub closed spec fn spec_height(self) -> int {
        self.height as int
    }

    /// The row-major samples.
    pub closed spec fn spec_data(self) -> Seq<u16> {
        self.data@
    }

    /// Raw sample at row `y`, column `x`.
    pub open spec fn spec_px(self, y: int, x: int) -> u16 {
        self.spec_data()[y * self.spec_width() + x]
    }

    pub open spec fn wf(self) -> bool {
        1 <= self.spec_width() && 1 <= self.spec_height() && self.spec_data().len()
            == self.spec_width() * self.spec_height()
    }

    /// Wraps row-major samples as an image; `None` unless both dimensions
    /// are at least 1 and the sample count matches them.
    pub fn new(width: u32, height: u32, data: Vec<u16>) -> (r: Option<HeightImage>)
        ensures
            match r {
                Some(img) => (
                    img.wf() && img.spec_width() == width && img.spec_height() == height
                        && img.spec_data() == data@ && 1 <= width && 1 <= height && data@.len()
                        == width * height
                ),
                None => width == 0 || height == 0 || data@.len() != width * height,
            },
    {
        proof {
            assert((width as int) * (height as int) <= 0xffff_ffff * 0xffff_ffff)
                by (nonlinear_arith)
                requires
                    width <= 0xffff_ffffu32,
                    height <= 0xffff_ffffu32,
            ;
        }
        if width >= 1 && height >= 1 && data.len() as u64 == (width as u64) * (height as u64) {
            Some(HeightImage { width, height, data })
        } else {
            None
        }
    }

    pub fn width(&self) -> (w: u32)
        ensures
            w == self.spec_width(),
    {
        self.width
    }

    pub fn height(&self) -> (h: u32)
        ensures
            h == self.spec_height(),
    {
        self.height
    }

    /// Raw sample at row `y`, column `x`.
    pub fn px(&self, y: u32, x: u32) -> (v: u16)
        requires
            self.wf(),
            y < self.spec_height(),
            x < self.spec_width(),
        ensures
            v == self.spec_px(y as int, x as int),
    {
        proof {
            lemma_row_major_bound(y as int, x as int, self.spec_width(), self.spec_height());
        }
        let n: usize = self.data.len();
        assert((y as int) * (self.width as int) + (x as int) < n);
        self.data[(y as usize) * (self.width as usize) + (x as usize)]
    }

    /// The corner (sy, sx) of a sampling block lies inside the image.
    pub open spec fn corner_in(self, sy: int, sx: int) -> bool {
        0 <= sy < self.spec_height() && 0 <= sx < self.spec_width()
    }

    /// The corner's raw sample if it is in bounds, else 0.
    pub open spec fn corner_val(self, sy: int, sx: int) -> int {
        if self.corner_in(sy, sx) {
            self.spec_px(sy, sx) as int
        } else {
            0
        }
    }

    /// 1 if the corner is in bounds, else 0.
    pub open spec fn corner_cnt(self, sy: int, sx: int) -> int {
        if self.corner_in(sy, sx) {
            1
        } else {
            0
        }
    }

    /// How many corners of the 2x2 block with bottom-right corner (cy, cx)
    /// are in bounds.
    pub open spec fn sample_count(self, cy: int, cx: int) -> int {
        self.corner_cnt(cy - 1, cx - 1) + self.corner_cnt(cy - 1, cx) + self.corner_cnt(
            cy,
            cx - 1,
        ) + self.corner_cnt(cy, cx)
    }

    /// Sum of the in-bounds corner samples of that block.
    pub open spec fn sample_sum(self, cy: int, cx: int) -> int {
        self.corner_val(cy - 1, cx - 1) + self.corner_val(cy - 1, cx) + self.corner_val(
            cy,
            cx - 1,
        ) + self.corner_val(cy, cx)
    }

    /// The smoothed height at (cy, cx): the mean of the in-bounds corner
    /// samples, in fixed-point units of `HEIGHT_ONE`/65535 per raw unit.
    pub open spec fn spec_sample(self, cy: int, cx: int) -> int {
        (12 * self.sample_sum(cy, cx)) / self.sample_count(cy, cx)
    }

    /// Every sample of the image holds the same raw value `v`.
    pub open spec fn uniform(self, v: u16) -> bool {
        forall|i: int| 0 <= i < self.spec_data().len() ==> (#[trigger] self.spec_data()[i]) == v
    }
}

/// The smoothed, vertex-centered height at grid point (cy, cx): the mean of
/// the up-to-4 raw samples of the 2x2 block with bottom-right corner
/// (cy, cx), skipping out-of-bounds corners, scaled so that a full-scale
/// raw sample yields `HEIGHT_ONE`.
pub fn sample_vertex_height(heightmap: &HeightImage, cy: u32, cx: u32) -> (h: u32)
    requires
        heightmap.wf(),
        cy <= heightmap.spec_height(),
        cx <= heightmap.spec_width(),
    ensures
        h == heightmap.spec_sample(cy as int, cx as int),
        h <= HEIGHT_ONE,
{
    let mut sum: u32 = 0;
    let mut cnt: u32 = 0;
    if cy >= 1 && cx >= 1 {
        sum = sum + heightmap.px(cy - 1, cx - 1) as u32;
        cnt = cnt + 1;
    }
    if cy >= 1 && cx < heightmap.width() {
        sum = sum + heightmap.px(cy - 1, cx) as u32;
        cnt = cnt + 1;
    }
    if cy < heightmap.height() && cx >= 1 {
        sum = sum + heightmap.px(cy, cx - 1) as u32;
        cnt = cnt + 1;
    }
    if cy < heightmap.height() && cx < heightmap.width() {
        sum = sum + heightmap.px(cy, cx) as u32;
        cnt = cnt + 1;
    }
    assert(sum == heightmap.sample_sum(cy as int, cx as int));
    assert(cnt == heightmap.sample_count(cy as int, cx as int));
    assert(cnt >= 1);
    assert(sum <= 65535 * cnt);
    let h: u32 = (12 * sum) / cnt;
    proof {
        lemma_div_is_ordered(12 * sum as int, 12 * 65535 * cnt as int, cnt as int);
        lemma_div_multiples_vanish(12int * 65535, cnt as int);
        assert(cnt as int * (12 * 65535) == 12 * 65535 * cnt as int) by (nonlinear_arith);
    }
    h
}

/// Averaging law: on an image whose samples all hold the raw value `v`,
/// every in-range sampling point yields exactly the normalized value of
/// `v`, at the boundary just as in the interior, since the partial average
/// of equal values is unaffected by the number of corners averaged.
pub proof fn lemma_uniform_sample(img: HeightImage, v: u16, cy: int, cx: int)
    requires
        img.wf(),
        img.uniform(v),
        0 <= cy <= img.spec_height(),
        0 <= cx <= img.spec_width(),
    ensures
        img.spec_sample(cy, cx) == 12 * v,
{
    lemma_uniform_corner(img, v, cy - 1, cx - 1);
    lemma_uniform_corner(img, v, cy - 1, cx);
    lemma_uniform_corner(img, v, cy, cx - 1);
    lemma_uniform_corner(img, v, cy, cx);
    let cnt = img.sample_count(cy, cx);
    let c1 = img.corner_cnt(cy - 1, cx - 1);
    let c2 = img.corner_cnt(cy - 1, cx);
    let c3 = img.corner_cnt(cy, cx - 1);
    let c4 = img.corner_cnt(cy, cx);
    assert(cnt >= 1);
    assert((c1 + c2 + c3 + c4) * v == c1 * v + c2 * v + c3 * v + c4 * v) by (nonlinear_arith);
    assert(img.sample_sum(cy, cx) == cnt * v);
    assert(12 * (cnt * v) == cnt * (12 * v)) by (nonlinear_arith);
    lemma_div_multiples_vanish(12 * v, cnt);
}

/// On a uniform image, an in-bounds corner contributes exactly `v` and an
/// out-of-bounds corner contributes nothing.
proof fn lemma_uniform_corner(img: HeightImage, v: u16, sy: int, sx: int)
    requires
        img.wf(),
        img.uniform(v),
    ensures
        img.corner_val(sy, sx) == img.corner_cnt(sy, sx) * v,
{
    if img.corner_in(sy, sx) {
        lemma_row_major_bound(sy, sx, img.spec_width(), img.spec_height());
        assert(img.spec_data()[sy * img.spec_width() + sx] == v);
    }
}

/// Boundary law: the sample at the top-left grid point averages exactly one
/// raw sample, and — when the image is at least 2x2 — the sample at (1, 1)
/// averages exactly four.
pub proof fn lemma_corner_sample_count(img: HeightImage)
    requires
        img.wf(),
    ensures
        img.sample_count(0, 0) == 1,
        img.spec_width() >= 2 && img.spec_height() >= 2 ==> img.sample_count(1, 1) == 4,
{
}

/// Decodes raster-image bytes into a height image. Returns `Ok` exactly
/// when the bytes decode to a 16-bit single-channel grayscale image with
/// both dimensions at least 1; the image then holds that decoding's
/// dimensions and samples.
pub fn load_height_image(bytes: &[u8]) -> (r: Result<HeightImage, ImageDecodeError>)
    ensures
        match r {
            Ok(img) => (
                img.wf() && decodes_to_valid(bytes@) && luma16_decode(bytes@) == Some(
                    ((img.spec_width() as nat, img.spec_height() as nat, img.spec_data())),
                )
            ),
            Err(_) => !decodes_to_valid(bytes@),
        },
{
    match decode_luma16(bytes) {
        Some((w, h, data)) => {
            match HeightImage::new(w, h, data) {
                Some(img) => Ok(img),
                None => Err(ImageDecodeError),
            }
        },
        None => Err(ImageDecodeError),
    }
}

} // verus!
