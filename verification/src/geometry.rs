//! The centered crop rectangle that maps a source raster onto a target
//! aspect ratio.  The rectangle is kept in exact rational form: every
//! coordinate is a numerator over one common denominator, so the target
//! ratio is met exactly rather than within rounding.

use vstd::prelude::*;

verus! {

/// Why a transform cycle failed.
#[derive(Clone, Copy, Debug, PartialEq, Eq, Structural)]
pub enum TransformError {
    /// The source could not be decoded, or its dimensions are
    /// degenerate (either one below 2 pixels).
    DecodeError,
    /// Encoding the rendered output yielded no data.
    EncodeError,
}

/// A crop rectangle in source-pixel coordinates, scaled by `den`: the
/// rectangle's real position and size are `x_num / den`, `y_num / den`,
/// `w_num / den`, `h_num / den`.
#[derive(Clone, Copy, Debug, PartialEq, Eq, Structural)]
pub struct CropRect {
    pub x_num: u64,
    pub y_num: u64,
    pub w_num: u64,
    pub h_num: u64,
    pub den: u64,
}

/// The mathematical image of a `CropRect`.
pub struct CropRectModel {
    pub x: int,
    pub y: int,
    pub w: int,
    pub h: int,
    pub den: int,
}

impl View for CropRect {
    type V = CropRectModel;

    open spec fn view(&self) -> CropRectModel {
        CropRectModel {
            x: self.x_num as int,
            y: self.y_num as int,
            w: self.w_num as int,
            h: self.h_num as int,
            den: self.den as int,
        }
    }
}

/// A generous ceiling on pixel dimensions, far beyond any real raster,
/// under which the scaled products below stay within `u64`.
pub const MAX_PIXEL_DIM: u64 = 1000000;

/// The centered crop rectangle for a source of `iw` by `ih` pixels and
/// a target ratio of `ow : oh`, with every coordinate scaled by
/// `2 * ow * oh`.  A source relatively wider than the target keeps its
/// full height and is cropped and centered horizontally; otherwise it
/// keeps its full width and is cropped and centered vertically.
pub open spec fn crop_rect_spec(iw: int, ih: int, ow: int, oh: int) -> CropRectModel {
    if iw * oh > ih * ow {
        CropRectModel {
            x: iw * ow * oh - ih * ow * ow,
            y: 0,
            w: 2 * ih * ow * ow,
            h: 2 * ih * ow * oh,
            den: 2 * ow * oh,
        }
    } else {
        CropRectModel {
            x: 0,
            y: ih * ow * oh - iw * oh * oh,
            w: 2 * iw * ow * oh,
            h: 2 * iw * oh * oh,
            den: 2 * ow * oh,
        }
    }
}

/// Crop-rectangle law: for any source at least 2 pixels on each side,
/// the rectangle lies within the source bounds, is centered along both
/// axes (trivially so along the uncropped one, which it spans fully),
/// and its width and height are in exactly the target ratio.  Bounds
/// are stated in the scaled coordinates, where the source spans
/// `iw * den` by `ih * den`.
pub proof fn lemma_crop_rect_law(iw: int, ih: int, ow: int, oh: int)
    requires
        2 <= iw,
        2 <= ih,
        1 <= ow,
        1 <= oh,
    ensures
        ({
            let m = crop_rect_spec(iw, ih, ow, oh);
            &&& 0 < m.den
            &&& 0 <= m.x
            &&& 0 <= m.y
            &&& 0 < m.w
            &&& 0 < m.h
            &&& 2 * m.x + m.w == iw * m.den
            &&& 2 * m.y + m.h == ih * m.den
            &&& m.x + m.w <= iw * m.den
            &&& m.y + m.h <= ih * m.den
            &&& m.w * oh == m.h * ow
        }),
{
    let m = crop_rect_spec(iw, ih, ow, oh);
    if iw * oh > ih * ow {
        assert(ih * ow * ow < iw * ow * oh) by (nonlinear_arith)
            requires
                ih * ow < iw * oh,
                1 <= ow,
        ;
        assert(2 * (iw * ow * oh - ih * ow * ow) + 2 * ih * ow * ow == iw * (2 * ow * oh))
            by (nonlinear_arith);
        assert(2 * ih * ow * oh == ih * (2 * ow * oh)) by (nonlinear_arith);
        assert(0 < 2 * ih * ow * ow) by (nonlinear_arith)
            requires
                2 <= ih,
                1 <= ow,
        ;
        assert(0 < 2 * ih * ow * oh) by (nonlinear_arith)
            requires
                2 <= ih,
                1 <= ow,
                1 <= oh,
        ;
        assert((2 * ih * ow * ow) * oh == (2 * ih * ow * oh) * ow) by (nonlinear_arith);
        assert(0 < 2 * ow * oh) by (nonlinear_arith)
            requires
                1 <= ow,
                1 <= oh,
        ;
    } else {
        assert(iw * oh * oh <= ih * ow * oh) by (nonlinear_arith)
            requires
                iw * oh <= ih * ow,
                1 <= oh,
        ;
        assert(2 * (ih * ow * oh - iw * oh * oh) + 2 * iw * oh * oh == ih * (2 * ow * oh))
            by (nonlinear_arith);
        assert(2 * iw * ow * oh == iw * (2 * ow * oh)) by (nonlinear_arith);
        assert(0 < 2 * iw * ow * oh) by (nonlinear_arith)
            requires
                2 <= iw,
                1 <= ow,
                1 <= oh,
        ;
        assert(0 < 2 * iw * oh * oh) by (nonlinear_arith)
            requires
                2 <= iw,
                1 <= oh,
        ;
        assert((2 * iw * ow * oh) * oh == (2 * iw * oh * oh) * ow) by (nonlinear_arith);
        assert(0 < 2 * ow * oh) by (nonlinear_arith)
            requires
                1 <= ow,
                1 <= oh,
        ;
    }
}

/// Computes the centered crop rectangle for a source of `iw` by `ih`
/// pixels and a target frame of `ow` by `oh`.  Degenerate source
/// dimensions (either one below 2) are rejected as a decode failure,
/// exactly as an undecodable source is.
pub fn compute_crop_rect(iw: u64, ih: u64, ow: u64, oh: u64) -> (r: Result<
    CropRect,
    TransformError,
>)
    requires
        1 <= ow <= MAX_PIXEL_DIM,
        1 <= oh <= MAX_PIXEL_DIM,
        iw <= MAX_PIXEL_DIM,
        ih <= MAX_PIXEL_DIM,
    ensures
        iw < 2 || ih < 2 ==> r == Err::<CropRect, TransformError>(TransformError::DecodeError),
        2 <= iw && 2 <= ih ==> (r matches Ok(c) && c@ == crop_rect_spec(
            iw as int,
            ih as int,
            ow as int,
            oh as int,
        )),
{
    if iw < 2 || ih < 2 {
        return Err(TransformError::DecodeError);
    }
    proof {
        lemma_products_bounded(iw as int, ih as int, ow as int, oh as int);
    }
    let den: u64 = 2 * ow * oh;
    if iw * oh > ih * ow {
        proof {
            assert(ih * ow * ow <= iw * ow * oh) by (nonlinear_arith)
                requires
                    ih * ow < iw * oh,
                    1 <= ow,
            ;
        }
        Ok(
            CropRect {
                x_num: iw * ow * oh - ih * ow * ow,
                y_num: 0,
                w_num: 2 * ih * ow * ow,
                h_num: 2 * ih * ow * oh,
                den,
            },
        )
    } else {
        proof {
            assert(iw * oh * oh <= ih * ow * oh) by (nonlinear_arith)
                requires
                    iw * oh <= ih * ow,
                    1 <= oh,
            ;
        }
        Ok(
            CropRect {
                x_num: 0,
                y_num: ih * ow * oh - iw * oh * oh,
                w_num: 2 * iw * ow * oh,
                h_num: 2 * iw * oh * oh,
                den,
            },
        )
    }
}

proof fn lemma_products_bounded(iw: int, ih: int, ow: int, oh: int)
    requires
        0 <= iw <= MAX_PIXEL_DIM,
        0 <= ih <= MAX_PIXEL_DIM,
        0 <= ow <= MAX_PIXEL_DIM,
        0 <= oh <= MAX_PIXEL_DIM,
    ensures
        0 <= iw * oh <= 1000000000000,
        0 <= ih * ow <= 1000000000000,
        0 <= ow * oh <= 1000000000000,
        0 <= iw * ow <= 1000000000000,
        0 <= iw * ow * oh <= 1000000000000000000,
        0 <= ih * ow * ow <= 1000000000000000000,
        0 <= ih * ow * oh <= 1000000000000000000,
        0 <= iw * oh * oh <= 1000000000000000000,
        0 <= 2 * ow * oh <= 2000000000000,
        0 <= 2 * ih * ow <= 2000000000000,
        0 <= 2 * iw * ow <= 2000000000000,
        0 <= 2 * iw * oh <= 2000000000000,
        0 <= 2 * ih * ow * ow <= 2000000000000000000,
        0 <= 2 * ih * ow * oh <= 2000000000000000000,
        0 <= 2 * iw * ow * oh <= 2000000000000000000,
        0 <= 2 * iw * oh * oh <= 2000000000000000000,
{
    assert(0 <= iw * oh <= 1000000000000 && 0 <= ih * ow <= 1000000000000 && 0 <= ow * oh
        <= 1000000000000 && 0 <= iw * ow <= 1000000000000 && 0 <= iw * ow * oh
        <= 1000000000000000000 && 0 <= ih * ow * ow <= 1000000000000000000 && 0 <= ih * ow * oh
        <= 1000000000000000000 && 0 <= iw * oh * oh <= 1000000000000000000 && 0 <= 2 * ow * oh
        <= 2000000000000 && 0 <= 2 * ih * ow <= 2000000000000 && 0 <= 2 * iw * ow
        <= 2000000000000 && 0 <= 2 * iw * oh <= 2000000000000 && 0 <= 2 * ih * ow * ow
        <= 2000000000000000000 && 0 <= 2 * ih * ow * oh
        <= 2000000000000000000 && 0 <= 2 * iw * ow * oh <= 2000000000000000000 && 0 <= 2 * iw * oh
        * oh <= 2000000000000000000) by (nonlinear_arith)
        requires
            0 <= iw <= 1000000,
            0 <= ih <= 1000000,
            0 <= ow <= 1000000,
            0 <= oh <= 1000000,
    ;
}

} // verus!

