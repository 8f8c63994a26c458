use vstd::prelude::*;
use crate::fixed::half;
use crate::scene::Rect;

verus! {

/// A rectangle in source-image pixel space, held exactly: each side is a
/// numerator over the common denominator `den`, so that `sx / den` is the
/// left edge in pixels. Crops by an aspect ratio rarely land on whole pixels,
/// and a rational keeps the ratio exact.
#[derive(Debug, Clone, Copy, PartialEq, Eq, Structural)]
pub struct CropDimensions {
    pub sx: i64,
    pub sy: i64,
    pub sw: i64,
    pub sh: i64,
    pub den: i64,
}

/// The rectangle of aspect `aspect_w : aspect_h` that is cut, centred, from a
/// `width` x `height` source by trimming its longer axis.
pub open spec fn cover_crop(width: int, height: int, aspect_w: int, aspect_h: int) -> CropDimensions {
    if width * aspect_h > height * aspect_w {
        CropDimensions {
            sx: (width * aspect_h - height * aspect_w) as i64,
            sy: 0,
            sw: (2 * height * aspect_w) as i64,
            sh: (2 * height * aspect_h) as i64,
            den: (2 * aspect_h) as i64,
        }
    } else {
        CropDimensions {
            sx: 0,
            sy: (height * aspect_w - width * aspect_h) as i64,
            sw: (2 * width * aspect_w) as i64,
            sh: (2 * width * aspect_h) as i64,
            den: (2 * aspect_w) as i64,
        }
    }
}

impl CropDimensions {
    /// The rectangle lies within a `width` x `height` source.
    pub open spec fn within(self, width: int, height: int) -> bool {
        &&& self.den > 0
        &&& 0 <= self.sx
        &&& 0 <= self.sy
        &&& 0 < self.sw
        &&& 0 < self.sh
        &&& self.sx + self.sw <= width * self.den
        &&& self.sy + self.sh <= height * self.den
    }

    /// Width over height is exactly `aspect_w / aspect_h`.
    pub open spec fn has_aspect(self, aspect_w: int, aspect_h: int) -> bool {
        self.sw * aspect_h == self.sh * aspect_w
    }

    /// What is trimmed on the left equals what is trimmed on the right, and
    /// likewise above and below.
    pub open spec fn centered_in(self, width: int, height: int) -> bool {
        &&& 2 * self.sx + self.sw == width * self.den
        &&& 2 * self.sy + self.sh == height * self.den
    }

    /// At most one axis is trimmed; the other is kept whole.
    pub open spec fn trims_one_axis(self, width: int, height: int) -> bool {
        ||| (self.sy == 0 && self.sh == height * self.den)
        ||| (self.sx == 0 && self.sw == width * self.den)
    }
}

/// All sides of a source and all terms of an aspect ratio are positive.
pub open spec fn positive(width: int, height: int, aspect_w: int, aspect_h: int) -> bool {
    width > 0 && height > 0 && aspect_w > 0 && aspect_h > 0
}

impl CropDimensions {
    /// The rectangle is a centred crop of a `width` x `height` source to the
    /// aspect `aspect_w : aspect_h`: it lies in the source, has the aspect
    /// exactly, and trims one axis only, by the same amount on both sides.
    pub open spec fn covers(self, width: int, height: int, aspect_w: int, aspect_h: int) -> bool {
        &&& self.within(width, height)
        &&& self.has_aspect(aspect_w, aspect_h)
        &&& self.centered_in(width, height)
        &&& self.trims_one_axis(width, height)
    }
}

/// Crop-to-cover for an arbitrary aspect ratio `aspect_w : aspect_h`.
pub fn crop_to_cover(width: i32, height: i32, aspect_w: u16, aspect_h: u16) -> (crop: CropDimensions)
    ensures
        crop == cover_crop(width as int, height as int, aspect_w as int, aspect_h as int),
        positive(width as int, height as int, aspect_w as int, aspect_h as int) ==> crop.covers(
            width as int,
            height as int,
            aspect_w as int,
            aspect_h as int,
        ),
{
    proof {
        if positive(width as int, height as int, aspect_w as int, aspect_h as int) {
            lemma_cover_crop_fits(width as int, height as int, aspect_w as int, aspect_h as int);
        }
    }
    let w: i64 = width as i64;
    let h: i64 = height as i64;
    let aw: i64 = aspect_w as i64;
    let ah: i64 = aspect_h as i64;
    assert(-0x8000_0000 * 0x1_0000 <= w * ah <= 0x8000_0000 * 0x1_0000) by (nonlinear_arith)
        requires
            -0x8000_0000 <= w < 0x8000_0000,
            0 <= ah < 0x1_0000,
    ;
    assert(-0x8000_0000 * 0x1_0000 <= h * aw <= 0x8000_0000 * 0x1_0000) by (nonlinear_arith)
        requires
            -0x8000_0000 <= h < 0x8000_0000,
            0 <= aw < 0x1_0000,
    ;
    assert(-0x8000_0000 * 0x1_0000 <= w * aw <= 0x8000_0000 * 0x1_0000) by (nonlinear_arith)
        requires
            -0x8000_0000 <= w < 0x8000_0000,
            0 <= aw < 0x1_0000,
    ;
    assert(-0x8000_0000 * 0x1_0000 <= h * ah <= 0x8000_0000 * 0x1_0000) by (nonlinear_arith)
        requires
            -0x8000_0000 <= h < 0x8000_0000,
            0 <= ah < 0x1_0000,
    ;
    let wide: i64 = w * ah;
    let tall: i64 = h * aw;
    if wide > tall {
        assert(2 * height * aspect_w == 2 * (h * aw)) by (nonlinear_arith)
            requires
                height == h,
                aspect_w == aw,
        ;
        assert(2 * height * aspect_h == 2 * (h * ah)) by (nonlinear_arith)
            requires
                height == h,
                aspect_h == ah,
        ;
        CropDimensions { sx: wide - tall, sy: 0, sw: 2 * tall, sh: 2 * (h * ah), den: 2 * ah }
    } else {
        assert(2 * width * aspect_w == 2 * (w * aw)) by (nonlinear_arith)
            requires
                width == w,
                aspect_w == aw,
        ;
        assert(2 * width * aspect_h == 2 * (w * ah)) by (nonlinear_arith)
            requires
                width == w,
                aspect_h == ah,
        ;
        CropDimensions { sx: 0, sy: tall - wide, sw: 2 * (w * aw), sh: 2 * wide, den: 2 * aw }
    }
}

/// The 16:9 crop of a `width` x `height` source.
pub fn calculate_crop_dimensions(width: i32, height: i32) -> (crop: CropDimensions)
    ensures
        crop == cover_crop(width as int, height as int, 16, 9),
        width > 0 && height > 0 ==> crop.covers(width as int, height as int, 16, 9),
{
    crop_to_cover(width, height, 16, 9)
}

/// The square crop of a `width` x `height` source.
pub fn calculate_square_crop_dimensions(width: i32, height: i32) -> (crop: CropDimensions)
    ensures
        crop == cover_crop(width as int, height as int, 1, 1),
        width > 0 && height > 0 ==> crop.covers(width as int, height as int, 1, 1),
{
    crop_to_cover(width, height, 1, 1)
}

/// The square crop under its second name, used for cover art.
pub fn calculate_square_crop(width: i32, height: i32) -> (crop: CropDimensions)
    ensures
        crop == cover_crop(width as int, height as int, 1, 1),
        width > 0 && height > 0 ==> crop.covers(width as int, height as int, 1, 1),
{
    crop_to_cover(width, height, 1, 1)
}

/// The size of a bitmap in whole pixels.
#[derive(Debug, Clone, Copy, PartialEq, Eq, Structural)]
pub struct ImageSize {
    pub width: i32,
    pub height: i32,
}

/// Where a bitmap of `img_w` x `img_h` pixels goes so that, scaled evenly, it
/// covers a canvas of `canvas_w` x `canvas_h` pixels and is centred on it.
/// The result is in thousandths of a pixel. The side that is scaled to
/// overhang is rounded down to a whole thousandth, and so is the half of what
/// overhangs. A bitmap without area is placed on the canvas as it is.
pub open spec fn cover_placement(canvas_w: int, canvas_h: int, img_w: int, img_h: int) -> Rect {
    if img_w <= 0 || img_h <= 0 {
        Rect { x: 0, y: 0, w: (canvas_w * 1000) as i64, h: (canvas_h * 1000) as i64 }
    } else if canvas_w * img_h >= canvas_h * img_w {
        let scaled_h = (img_h * (canvas_w * 1000)) / img_w;
        Rect {
            x: 0,
            y: ((canvas_h * 1000 - scaled_h) / 2) as i64,
            w: (canvas_w * 1000) as i64,
            h: scaled_h as i64,
        }
    } else {
        let scaled_w = (img_w * (canvas_h * 1000)) / img_h;
        Rect {
            x: ((canvas_w * 1000 - scaled_w) / 2) as i64,
            y: 0,
            w: scaled_w as i64,
            h: (canvas_h * 1000) as i64,
        }
    }
}

/// Places a bitmap so that it covers the canvas.
pub fn place_to_cover(canvas_w: u16, canvas_h: u16, image: ImageSize) -> (dst: Rect)
    ensures
        dst == cover_placement(canvas_w as int, canvas_h as int, image.width as int, image.height as int),
{
    let cw: i64 = canvas_w as i64 * 1000;
    let ch: i64 = canvas_h as i64 * 1000;
    if image.width <= 0 || image.height <= 0 {
        return Rect { x: 0, y: 0, w: cw, h: ch };
    }
    let iw: i64 = image.width as i64;
    let ih: i64 = image.height as i64;
    assert(0 <= ih * cw <= 0x8000_0000 * 65_535_000) by (nonlinear_arith)
        requires
            0 < ih < 0x8000_0000,
            0 <= cw <= 65_535_000,
    ;
    assert(0 <= iw * ch <= 0x8000_0000 * 65_535_000) by (nonlinear_arith)
        requires
            0 < iw < 0x8000_0000,
            0 <= ch <= 65_535_000,
    ;
    assert((canvas_w * image.height >= canvas_h * image.width) == (ih * cw >= iw * ch))
        by (nonlinear_arith)
        requires
            cw == canvas_w * 1000,
            ch == canvas_h * 1000,
            iw == image.width,
            ih == image.height,
    ;
    if ih * cw >= iw * ch {
        assert(0 <= (ih * cw) / (iw as int) <= ih * cw) by (nonlinear_arith)
            requires
                0 <= ih * cw,
                0 < iw,
        ;
        let scaled_h: i64 = (ih * cw) / iw;
        Rect { x: 0, y: half(ch - scaled_h), w: cw, h: scaled_h }
    } else {
        assert(0 <= (iw * ch) / (ih as int) <= iw * ch) by (nonlinear_arith)
            requires
                0 <= iw * ch,
                0 < ih,
        ;
        let scaled_w: i64 = (iw * ch) / ih;
        Rect { x: half(cw - scaled_w), y: 0, w: scaled_w, h: ch }
    }
}

/// A bitmap placed to cover leaves no part of the canvas bare: it starts at
/// or before the canvas's left and top edges and ends at or after its right
/// and bottom edges. One of its sides is the canvas's own, and it overhangs
/// the other by the same amount on both ends, up to the thousandth that
/// halving may drop.
pub proof fn lemma_placement_covers(canvas_w: int, canvas_h: int, img_w: int, img_h: int)
    requires
        0 < canvas_w <= u16::MAX,
        0 < canvas_h <= u16::MAX,
        0 < img_w <= i32::MAX,
        0 < img_h <= i32::MAX,
    ensures
        ({
            let dst = cover_placement(canvas_w, canvas_h, img_w, img_h);
            &&& dst.x <= 0
            &&& dst.y <= 0
            &&& dst.x + dst.w >= canvas_w * 1000
            &&& dst.y + dst.h >= canvas_h * 1000
            &&& (dst.w == canvas_w * 1000 || dst.h == canvas_h * 1000)
            &&& 0 <= canvas_w * 1000 - (2 * dst.x + dst.w) <= 1
            &&& 0 <= canvas_h * 1000 - (2 * dst.y + dst.h) <= 1
        }),
{
    let cw = canvas_w * 1000;
    let ch = canvas_h * 1000;
    assert(0 < img_h * cw <= 0x8000_0000 * 65_535_000) by (nonlinear_arith)
        requires
            0 < img_h < 0x8000_0000,
            0 < cw <= 65_535_000,
    ;
    assert(0 < img_w * ch <= 0x8000_0000 * 65_535_000) by (nonlinear_arith)
        requires
            0 < img_w < 0x8000_0000,
            0 < ch <= 65_535_000,
    ;
    assert((canvas_w * img_h >= canvas_h * img_w) == (img_h * cw >= img_w * ch)) by (nonlinear_arith)
        requires
            cw == canvas_w * 1000,
            ch == canvas_h * 1000,
    ;
    if canvas_w * img_h >= canvas_h * img_w {
        let scaled = (img_h * cw) / img_w;
        assert(ch <= scaled <= img_h * cw) by (nonlinear_arith)
            requires
                scaled == (img_h * cw) / img_w,
                img_h * cw >= img_w * ch,
                0 < img_w,
                0 <= ch,
        ;
    } else {
        let scaled = (img_w * ch) / img_h;
        assert(cw <= scaled <= img_w * ch) by (nonlinear_arith)
            requires
                scaled == (img_w * ch) / img_h,
                img_w * ch >= img_h * cw,
                0 < img_h,
                0 <= cw,
        ;
    }
}

/// Crop-to-cover never leaves the source, keeps the target aspect ratio
/// exactly, trims one axis only and trims it by the same amount on both
/// sides. This holds for every source with positive sides and every aspect
/// ratio with positive terms that `crop_to_cover` accepts.
pub proof fn lemma_cover_crop_fits(width: int, height: int, aspect_w: int, aspect_h: int)
    requires
        0 < width <= i32::MAX,
        0 < height <= i32::MAX,
        0 < aspect_w <= u16::MAX,
        0 < aspect_h <= u16::MAX,
    ensures
        cover_crop(width, height, aspect_w, aspect_h).covers(width, height, aspect_w, aspect_h),
{
    let wide = width * aspect_h;
    let tall = height * aspect_w;
    assert(0 < wide <= 0x8000_0000 * 0x1_0000) by (nonlinear_arith)
        requires
            wide == width * aspect_h,
            0 < width <= 0x7fff_ffff,
            0 < aspect_h <= 0xffff,
    ;
    assert(0 < tall <= 0x8000_0000 * 0x1_0000) by (nonlinear_arith)
        requires
            tall == height * aspect_w,
            0 < height <= 0x7fff_ffff,
            0 < aspect_w <= 0xffff,
    ;
    assert(0 < width * aspect_w <= 0x8000_0000 * 0x1_0000) by (nonlinear_arith)
        requires
            0 < width <= 0x7fff_ffff,
            0 < aspect_w <= 0xffff,
    ;
    assert(0 < height * aspect_h <= 0x8000_0000 * 0x1_0000) by (nonlinear_arith)
        requires
            0 < height <= 0x7fff_ffff,
            0 < aspect_h <= 0xffff,
    ;
    let ww = width * aspect_w;
    let hh = height * aspect_h;
    assert(2 * height * aspect_w == 2 * tall) by (nonlinear_arith)
        requires
            tall == height * aspect_w,
    ;
    assert(2 * height * aspect_h == 2 * hh) by (nonlinear_arith)
        requires
            hh == height * aspect_h,
    ;
    assert(2 * width * aspect_h == 2 * wide) by (nonlinear_arith)
        requires
            wide == width * aspect_h,
    ;
    assert(2 * width * aspect_w == 2 * ww) by (nonlinear_arith)
        requires
            ww == width * aspect_w,
    ;
    assert(width * (2 * aspect_h) == 2 * wide) by (nonlinear_arith)
        requires
            wide == width * aspect_h,
    ;
    assert(height * (2 * aspect_h) == 2 * hh) by (nonlinear_arith)
        requires
            hh == height * aspect_h,
    ;
    assert(width * (2 * aspect_w) == 2 * ww) by (nonlinear_arith)
        requires
            ww == width * aspect_w,
    ;
    assert(height * (2 * aspect_w) == 2 * tall) by (nonlinear_arith)
        requires
            tall == height * aspect_w,
    ;
    assert(tall * aspect_h == hh * aspect_w) by (nonlinear_arith)
        requires
            tall == height * aspect_w,
            hh == height * aspect_h,
    ;
    assert(ww * aspect_h == wide * aspect_w) by (nonlinear_arith)
        requires
            ww == width * aspect_w,
            wide == width * aspect_h,
    ;
    let c = cover_crop(width, height, aspect_w, aspect_h);
    if wide > tall {
        assert(c.sw == 2 * tall);
        assert(c.sh == 2 * hh);
        assert(c.den == 2 * aspect_h);
        assert((2 * tall) * aspect_h == (2 * hh) * aspect_w) by (nonlinear_arith)
            requires
                tall * aspect_h == hh * aspect_w,
        ;
    } else {
        assert(c.sw == 2 * ww);
        assert(c.sh == 2 * wide);
        assert(c.den == 2 * aspect_w);
        assert((2 * ww) * aspect_h == (2 * wide) * aspect_w) by (nonlinear_arith)
            requires
                ww * aspect_h == wide * aspect_w,
        ;
    }
}

} // verus!
